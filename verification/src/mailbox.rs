//! The single-slot mailbox through which every producer reaches the actuator.
//!
//! The slot is an `embassy_sync` signal: a write replaces whatever is pending,
//! a take empties it. Nothing queues and no writer ever waits.

use vstd::prelude::*;
use embassy_sync::blocking_mutex::raw::CriticalSectionRawMutex;
use embassy_sync::signal::Signal;
use crate::action::Action;

verus! {

/// The `embassy_sync` signal behind a mailbox. Verus does not look inside:
/// what it holds is known only through [`pending`]. A slot belongs to one
/// mailbox and is never shared, and whatever changes it takes it by `&mut`,
/// so that what is pending changes through the functions below alone.
#[verifier::external_body]
pub struct Slot {
    signal: Signal<CriticalSectionRawMutex, Action>,
}

/// The action that a slot holds and has not yet handed out, if any.
pub uninterp spec fn pending(slot: Slot) -> Option<Action>;

/// `Signal::new`: the fresh signal holds nothing.
#[verifier::external_body]
fn slot_new() -> (slot: Slot)
    ensures
        pending(slot) is None,
{
    Slot { signal: Signal::new() }
}

/// `Signal::signal`: the value written becomes the pending one, whatever was
/// pending before.
#[verifier::external_body]
fn slot_write(slot: &mut Slot, action: Action)
    ensures
        pending(*final(slot)) == Some(action),
{
    slot.signal.signal(action)
}

/// `Signal::try_take`: hands out the pending value, if there is one, and
/// leaves the signal empty.
#[verifier::external_body]
fn slot_try_take(slot: &mut Slot) -> (taken: Option<Action>)
    ensures
        taken == pending(*old(slot)),
        pending(*final(slot)) is None,
{
    slot.signal.try_take()
}

/// `Signal::signaled`: tells whether a value is pending, and leaves it there.
#[verifier::external_body]
fn slot_signaled(slot: &Slot) -> (full: bool)
    ensures
        full == pending(*slot).is_some(),
{
    slot.signal.signaled()
}

/// The state of the slot after `action` is written into it: the new action
/// alone, whatever `slot` held.
pub open spec fn after_signal(slot: Option<Action>, action: Action) -> Option<Action> {
    Some(action)
}

/// The state of the slot after each action of `writes` is written into it in
/// turn, with no take in between.
pub open spec fn after_signals(slot: Option<Action>, writes: Seq<Action>) -> Option<Action>
    decreases writes.len(),
{
    if writes.len() == 0 {
        slot
    } else {
        after_signal(after_signals(slot, writes.drop_last()), writes.last())
    }
}

/// What a take does to the slot: the action handed to the consumer, if one
/// was pending, and the empty slot left behind.
pub open spec fn after_take(slot: Option<Action>) -> (Option<Action>, Option<Action>) {
    (slot, None)
}

/// Latest-write-wins mailbox holding at most one pending action.
pub struct ActionMailbox {
    slot: Slot,
}

impl View for ActionMailbox {
    type V = Option<Action>;

    closed spec fn view(&self) -> Option<Action> {
        pending(self.slot)
    }
}

impl ActionMailbox {
    /// An empty mailbox.
    pub fn new() -> (mailbox: ActionMailbox)
        ensures
            mailbox@ is None,
    {
        ActionMailbox { slot: slot_new() }
    }

    /// Writes `action`, replacing any action not yet consumed. Never waits and
    /// never fails.
    pub fn signal(&mut self, action: Action)
        ensures
            final(self)@ == after_signal(old(self)@, action),
    {
        slot_write(&mut self.slot, action)
    }

    /// Consumes the pending action if one is present; `None` tells the
    /// consumer that it has to suspend until the next write.
    pub fn try_take(&mut self) -> (taken: Option<Action>)
        ensures
            (taken, final(self)@) == after_take(old(self)@),
    {
        slot_try_take(&mut self.slot)
    }

    /// Whether an action is pending.
    pub fn signaled(&self) -> (full: bool)
        ensures
            full == self@.is_some(),
    {
        slot_signaled(&self.slot)
    }
}

/// Writes that no take separates collapse into the last of them: a consumer
/// that takes afterwards sees the last action written and nothing else.
pub proof fn lemma_latest_write_wins(slot: Option<Action>, writes: Seq<Action>)
    requires
        writes.len() > 0,
    ensures
        after_signals(slot, writes) == Some(writes.last()),
{
}

/// Two writes with no take in between collapse into one action, the second:
/// the next take hands out the second and leaves nothing, whatever the slot
/// held and whoever wrote.
pub proof fn lemma_two_writes_collapse(slot: Option<Action>, first: Action, second: Action)
    ensures
        after_signal(after_signal(slot, first), second) == Some(second),
        after_signals(slot, seq![first, second]) == Some(second),
        after_take(after_signal(after_signal(slot, first), second)) == (Some(second), None::<Action>),
        after_take(after_take(after_signal(after_signal(slot, first), second)).1) == (
            None::<Action>,
            None::<Action>,
        ),
{
    lemma_latest_write_wins(slot, seq![first, second]);
}

} // verus!
