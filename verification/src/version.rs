//! The version string that the device publishes for field diagnostics: text of
//! at most 32 bytes, held in a `heapless` string of that capacity.

use vstd::prelude::*;
use vstd::utf8::encode_utf8;

verus! {

/// Largest number of bytes that a version string can hold.
pub const VERSION_CAPACITY: usize = 32;

#[verifier::external_type_specification]
#[verifier::external_body]
pub struct ExBoundedString<const N: usize>(heapless::String<N>);

/// The text that a bounded string holds.
pub uninterp spec fn text(bounded: heapless::String<32>) -> Seq<char>;

/// `heapless::String::<32>::try_from(&str)`: succeeds exactly when the bytes
/// of `s` fit the capacity, and the string made then holds the text of `s`.
#[verifier::external_body]
fn bounded_from_str(s: &str) -> (made: Option<heapless::String<32>>)
    ensures
        made is Some <==> encode_utf8(s@).len() <= 32,
        made is Some ==> text(made.unwrap()) == s@,
{
    heapless::String::try_from(s).ok()
}

/// `heapless::String::as_str`: the text held, which never takes more bytes
/// than the capacity.
#[verifier::external_body]
fn bounded_as_str(bounded: &heapless::String<32>) -> (s: &str)
    ensures
        s@ == text(*bounded),
        encode_utf8(s@).len() <= 32,
{
    bounded.as_str()
}

/// A version identifier of at most [`VERSION_CAPACITY`] bytes.
pub struct VersionString {
    bounded: heapless::String<32>,
}

impl View for VersionString {
    type V = Seq<char>;

    closed spec fn view(&self) -> Seq<char> {
        text(self.bounded)
    }
}

impl VersionString {
    /// Makes a version string of `s`, or `None` when `s` takes more than
    /// [`VERSION_CAPACITY`] bytes.
    pub fn new(s: &str) -> (made: Option<VersionString>)
        ensures
            made is Some <==> encode_utf8(s@).len() <= VERSION_CAPACITY,
            made is Some ==> made.unwrap()@ == s@,
    {
        match bounded_from_str(s) {
            Some(bounded) => Some(VersionString { bounded }),
            None => None,
        }
    }

    /// Returns the text.
    pub fn as_str(&self) -> (s: &str)
        ensures
            s@ == self@,
            encode_utf8(self@).len() <= VERSION_CAPACITY,
    {
        bounded_as_str(&self.bounded)
    }

    /// Returns the string in the form in which the attribute table takes it.
    pub fn as_bounded(&self) -> (bounded: &heapless::String<32>)
        ensures
            text(*bounded) == self@,
    {
        &self.bounded
    }
}

} // verus!
