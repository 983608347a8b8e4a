//! The button monitor against a clock: what it emits, millisecond by
//! millisecond, for a given course of the input, and what the output line
//! does in consequence.
//!
//! Time is counted in ticks of one millisecond. A trace gives the input at
//! each tick: `true` where the input is low, that is where the button is
//! pressed. Before the first tick the input is high, as the pull-up holds it.
//! A sleep of `n` milliseconds that starts at tick `t` ends at tick `t + n`,
//! and a monitor that starts to listen at a tick sees an edge at that tick.

use vstd::prelude::*;
use crate::action::Action;
use crate::action::Level;
use crate::actuator::inverted_times;
use crate::button::command_for;
use crate::button::emitted;
use crate::button::next_phase;
use crate::button::ButtonCommand;
use crate::button::ButtonEvent;
use crate::button::ButtonPhase;
use crate::mailbox::after_signal;
use crate::system::consume;

verus! {

/// The monitor between two ticks: its phase, and the milliseconds left of
/// the sleep that it is in (none while it listens).
pub struct Clocked {
    pub phase: ButtonPhase,
    pub remaining: nat,
}

/// The length of the sleep that `command` asks for.
pub open spec fn sleep_of(command: ButtonCommand) -> nat {
    match command {
        ButtonCommand::AwaitFallingEdge => 0,
        ButtonCommand::Sleep { millis } => millis as nat,
    }
}

/// The monitor after `event` came in `phase`, at the start of what the next
/// command asks for.
pub open spec fn after_event(phase: ButtonPhase, event: ButtonEvent) -> Clocked {
    let next = next_phase(phase, event);
    Clocked { phase: next, remaining: sleep_of(command_for(next)) }
}

/// The monitor after it had the chance to see an edge: if it listens and the
/// input fell at this tick, the edge is reported to it.
pub open spec fn listen(clocked: Clocked, low_before: bool, low: bool) -> Clocked {
    if command_for(clocked.phase) == ButtonCommand::AwaitFallingEdge && !low_before && low {
        after_event(clocked.phase, ButtonEvent::FallingEdge)
    } else {
        clocked
    }
}

/// One tick of the clock: the monitor afterwards, and the action that it
/// emitted at this tick. A sleep that ends is reported with the level of the
/// input at this tick; a monitor that listens, or listens again from this
/// tick on, is told of an edge.
pub open spec fn tick(clocked: Clocked, low_before: bool, low: bool) -> (Clocked, Option<Action>) {
    if command_for(clocked.phase) == ButtonCommand::AwaitFallingEdge {
        (listen(clocked, low_before, low), None)
    } else if clocked.remaining > 1 {
        (Clocked { phase: clocked.phase, remaining: (clocked.remaining - 1) as nat }, None)
    } else {
        let event = ButtonEvent::Elapsed { pin_low: low };
        (listen(after_event(clocked.phase, event), low_before, low), emitted(clocked.phase, event))
    }
}

/// Whether the input is low just before tick `t`.
pub open spec fn low_before(trace: Seq<bool>, t: int) -> bool {
    t > 0 && trace[t - 1]
}

/// The monitor just before tick `t`, when it started to listen at tick 0.
pub open spec fn state_at(trace: Seq<bool>, t: nat) -> Clocked
    decreases t,
{
    if t == 0 {
        Clocked { phase: ButtonPhase::Idle, remaining: 0 }
    } else {
        tick(state_at(trace, (t - 1) as nat), low_before(trace, t - 1), trace[t - 1]).0
    }
}

/// The action that the monitor emits at tick `t`.
pub open spec fn emitted_at(trace: Seq<bool>, t: nat) -> Option<Action> {
    tick(state_at(trace, t), low_before(trace, t as int), trace[t as int]).1
}

/// The number of ticks before `t` at which the monitor emits an action.
pub open spec fn emissions_before(trace: Seq<bool>, t: nat) -> nat
    decreases t,
{
    if t == 0 {
        0
    } else {
        emissions_before(trace, (t - 1) as nat) + if emitted_at(trace, (t - 1) as nat) is Some {
            1nat
        } else {
            0nat
        }
    }
}

/// The level of the output line after a tick at which the monitor emitted
/// `written`: the action goes into the mailbox, which is empty, and the
/// consumer has its turn before the next tick comes.
pub open spec fn line_after_tick(line: Level, written: Option<Action>) -> Level {
    let slot = match written {
        Some(action) => after_signal(None, action),
        None => None,
    };
    consume(slot, line).2
}

/// The level of the output line just before tick `t`. It starts high.
pub open spec fn line_at(trace: Seq<bool>, t: nat) -> Level
    decreases t,
{
    if t == 0 {
        Level::High
    } else {
        line_after_tick(line_at(trace, (t - 1) as nat), emitted_at(trace, (t - 1) as nat))
    }
}

/// One press of the button: the input falls at tick `start` and is low up to
/// and including tick `start + hold`.
pub struct Press {
    pub start: nat,
    pub hold: nat,
}

/// Whether `press` holds the input low at tick `t`.
pub open spec fn held_at(press: Press, t: int) -> bool {
    press.start <= t <= press.start + press.hold
}

/// Whether one of `presses` holds the input low at tick `t`.
pub open spec fn pressed_at(presses: Seq<Press>, t: int) -> bool {
    exists|i: int| 0 <= i < presses.len() && #[trigger] held_at(presses[i], t)
}

/// The trace of `len` ticks that `presses` make.
pub open spec fn trace_of(presses: Seq<Press>, len: nat) -> Seq<bool> {
    Seq::new(len, |t: int| pressed_at(presses, t))
}

/// Whether `next` comes late enough after `prev`: at least 30 ms from start
/// to start, and with the input high in between.
pub open spec fn follows(prev: Press, next: Press) -> bool {
    &&& next.start >= prev.start + 30
    &&& next.start >= prev.start + prev.hold + 2
}

/// Whether each of `presses` comes late enough after the one before it.
pub open spec fn well_spaced(presses: Seq<Press>) -> bool {
    forall|i: int| 0 < i < presses.len() ==> #[trigger] follows(presses[i - 1], presses[i])
}

/// Whether `press` is confirmed at tick `t`: it began 10 ms before and is
/// still on.
pub open spec fn confirms_at(press: Press, t: int) -> bool {
    press.hold >= 10 && press.start + 10 == t
}

/// Whether one of `presses` is confirmed at tick `t`.
pub open spec fn confirmed_at(presses: Seq<Press>, t: int) -> bool {
    exists|i: int| 0 <= i < presses.len() && #[trigger] confirms_at(presses[i], t)
}

/// The number of `presses` that are confirmed before tick `t`.
pub open spec fn confirmed_before(presses: Seq<Press>, t: int) -> nat
    decreases presses.len(),
{
    if presses.len() == 0 {
        0
    } else {
        confirmed_before(presses.drop_last(), t) + if presses.last().hold >= 10
            && presses.last().start + 10 < t {
            1nat
        } else {
            0nat
        }
    }
}

/// The number of `presses` that start before tick `t`.
spec fn started_before(presses: Seq<Press>, t: int) -> nat
    decreases presses.len(),
{
    if presses.len() == 0 {
        0
    } else if presses.last().start < t {
        presses.len()
    } else {
        started_before(presses.drop_last(), t)
    }
}

/// The monitor just before tick `t`, read off the presses: it is busy with
/// the last press that started, for 30 ms from its start.
spec fn expected_state(presses: Seq<Press>, t: int) -> Clocked {
    let k = started_before(presses, t);
    if k == 0 {
        Clocked { phase: ButtonPhase::Idle, remaining: 0 }
    } else {
        let since = t - 1 - presses[k - 1].start;
        if since < 10 {
            Clocked { phase: ButtonPhase::DebounceConfirm, remaining: (10 - since) as nat }
        } else if since < 30 {
            Clocked { phase: ButtonPhase::ReleaseGuard, remaining: (30 - since) as nat }
        } else {
            Clocked { phase: ButtonPhase::Idle, remaining: 0 }
        }
    }
}

proof fn lemma_spacing(presses: Seq<Press>, i: int, j: int)
    requires
        well_spaced(presses),
        0 <= i < j < presses.len(),
    ensures
        follows(presses[i], presses[j]),
    decreases j - i,
{
    assert(follows(presses[j - 1], presses[j]));
    if j > i + 1 {
        lemma_spacing(presses, i, j - 1);
    }
}

proof fn lemma_drop_last_spaced(presses: Seq<Press>)
    requires
        well_spaced(presses),
        presses.len() > 0,
    ensures
        well_spaced(presses.drop_last()),
{
    let shorter = presses.drop_last();
    assert forall|i: int| 0 < i < shorter.len() implies #[trigger] follows(
        shorter[i - 1],
        shorter[i],
    ) by {
        assert(follows(presses[i - 1], presses[i]));
    }
}

proof fn lemma_started_bounds(presses: Seq<Press>, t: int)
    requires
        well_spaced(presses),
    ensures
        started_before(presses, t) <= presses.len(),
        started_before(presses, t) > 0 ==> presses[started_before(presses, t) - 1].start < t,
        started_before(presses, t) < presses.len() ==> presses[
            started_before(presses, t) as int
        ].start >= t,
    decreases presses.len(),
{
    if presses.len() > 0 && presses.last().start >= t {
        lemma_drop_last_spaced(presses);
        lemma_started_bounds(presses.drop_last(), t);
    }
}

proof fn lemma_started_unique(presses: Seq<Press>, t: int, k: int)
    requires
        well_spaced(presses),
        0 <= k <= presses.len(),
        k > 0 ==> presses[k - 1].start < t,
        k < presses.len() ==> presses[k].start >= t,
    ensures
        started_before(presses, t) == k,
    decreases presses.len(),
{
    if presses.len() > 0 {
        let last = presses.len() - 1;
        if presses.last().start < t {
            if k < last {
                lemma_spacing(presses, k, last);
            }
        } else {
            lemma_drop_last_spaced(presses);
            lemma_started_unique(presses.drop_last(), t, k);
        }
    }
}

/// At each tick the input is as the last press that started leaves it.
proof fn lemma_pin(presses: Seq<Press>, t: int)
    requires
        well_spaced(presses),
    ensures
        pressed_at(presses, t) <==> started_before(presses, t + 1) > 0 && held_at(
            presses[started_before(presses, t + 1) - 1],
            t,
        ),
{
    let k = started_before(presses, t + 1);
    lemma_started_bounds(presses, t + 1);
    if pressed_at(presses, t) {
        let i = choose|i: int| 0 <= i < presses.len() && #[trigger] held_at(presses[i], t);
        if i >= k {
            if i > k {
                lemma_spacing(presses, k as int, i);
            }
        } else if i < k - 1 {
            lemma_spacing(presses, i, k - 1);
        }
    }
}

/// The action that the monitor emits at a tick, read off the presses.
pub open spec fn expected_emission(presses: Seq<Press>, t: int) -> Option<Action> {
    if confirmed_at(presses, t) {
        Some(Action::Toggle)
    } else {
        None
    }
}

/// One tick takes the monitor from what the presses say of this tick to what
/// they say of the next, and it emits as they say.
proof fn lemma_tick(presses: Seq<Press>, len: nat, t: int)
    requires
        well_spaced(presses),
        0 <= t < len,
    ensures
        tick(
            expected_state(presses, t),
            low_before(trace_of(presses, len), t),
            trace_of(presses, len)[t],
        ) == (expected_state(presses, t + 1), expected_emission(presses, t)),
{
    let trace = trace_of(presses, len);
    let n = presses.len();
    let k = started_before(presses, t) as int;
    lemma_started_bounds(presses, t);
    let starts_now = k < n && presses[k].start == t;
    if k > 0 && k < n {
        assert(follows(presses[k - 1], presses[k]));
    }
    if starts_now {
        if k + 1 < n {
            assert(follows(presses[k + 1 - 1], presses[k + 1]));
        }
        lemma_started_unique(presses, t + 1, k + 1);
    } else {
        lemma_started_unique(presses, t + 1, k);
    }
    lemma_pin(presses, t);
    if t > 0 {
        lemma_pin(presses, t - 1);
    }
    if confirmed_at(presses, t) {
        let i = choose|i: int| 0 <= i < presses.len() && #[trigger] confirms_at(presses[i], t);
        if i >= k {
            if i > k {
                lemma_spacing(presses, k, i);
            }
        } else if i < k - 1 {
            lemma_spacing(presses, i, k - 1);
        }
    }
    if k > 0 && presses[k - 1].start + 10 == t && presses[k - 1].hold >= 10 {
        assert(confirms_at(presses[k - 1], t));
    }
}

/// At every tick the monitor is where the presses say.
proof fn lemma_state_at(presses: Seq<Press>, len: nat, t: nat)
    requires
        well_spaced(presses),
        t <= len,
    ensures
        state_at(trace_of(presses, len), t) == expected_state(presses, t as int),
    decreases t,
{
    if t == 0 {
        lemma_started_unique(presses, 0, 0);
    } else {
        lemma_state_at(presses, len, (t - 1) as nat);
        lemma_tick(presses, len, t - 1);
    }
}

/// For presses that are well spaced, the monitor emits a `Toggle` at the
/// ticks at which a press is confirmed, 10 ms after its start, and nothing at
/// any other tick.
pub proof fn lemma_emissions(presses: Seq<Press>, len: nat, t: nat)
    requires
        well_spaced(presses),
        t < len,
    ensures
        emitted_at(trace_of(presses, len), t) == expected_emission(presses, t as int),
{
    lemma_state_at(presses, len, t);
    lemma_tick(presses, len, t as int);
}

proof fn lemma_confirmed_step(presses: Seq<Press>, t: int)
    requires
        well_spaced(presses),
    ensures
        confirmed_before(presses, t + 1) == confirmed_before(presses, t) + if confirmed_at(
            presses,
            t,
        ) {
            1nat
        } else {
            0nat
        },
    decreases presses.len(),
{
    if presses.len() > 0 {
        let shorter = presses.drop_last();
        let last = presses.len() - 1;
        lemma_drop_last_spaced(presses);
        lemma_confirmed_step(shorter, t);
        if confirmed_at(shorter, t) {
            let i = choose|i: int| 0 <= i < shorter.len() && #[trigger] confirms_at(shorter[i], t);
            assert(confirms_at(presses[i], t));
            lemma_spacing(presses, i, last);
        }
        if confirmed_at(presses, t) {
            let i = choose|i: int| 0 <= i < presses.len() && #[trigger] confirms_at(presses[i], t);
            if i < last {
                assert(confirms_at(shorter[i], t));
            }
        }
        if confirms_at(presses.last(), t) {
            assert(confirms_at(presses[last], t));
        }
    }
}

proof fn lemma_confirmed_none(presses: Seq<Press>, t: int)
    requires
        t <= 10,
    ensures
        confirmed_before(presses, t) == 0,
    decreases presses.len(),
{
    if presses.len() > 0 {
        lemma_confirmed_none(presses.drop_last(), t);
    }
}

proof fn lemma_confirmed_all(presses: Seq<Press>, t: int)
    requires
        well_spaced(presses),
        forall|i: int| 0 <= i < presses.len() ==> (#[trigger] presses[i]).hold >= 10,
        presses.len() > 0 ==> t > presses.last().start + 10,
    ensures
        confirmed_before(presses, t) == presses.len(),
    decreases presses.len(),
{
    if presses.len() > 0 {
        let shorter = presses.drop_last();
        lemma_drop_last_spaced(presses);
        if shorter.len() > 0 {
            lemma_spacing(presses, shorter.len() - 1, presses.len() - 1);
        }
        assert forall|i: int| 0 <= i < shorter.len() implies (#[trigger] shorter[i]).hold
            >= 10 by {
            assert(presses[i].hold >= 10);
        }
        lemma_confirmed_all(shorter, t);
    }
}

/// Up to every tick the monitor has emitted once for each press confirmed
/// before it.
proof fn lemma_emission_count(presses: Seq<Press>, len: nat, t: nat)
    requires
        well_spaced(presses),
        t <= len,
    ensures
        emissions_before(trace_of(presses, len), t) == confirmed_before(presses, t as int),
    decreases t,
{
    if t == 0 {
        lemma_confirmed_none(presses, 0);
    } else {
        lemma_emission_count(presses, len, (t - 1) as nat);
        lemma_emissions(presses, len, (t - 1) as nat);
        lemma_confirmed_step(presses, t - 1);
    }
}

/// Whatever the input does, the line has been inverted once for each action
/// that the monitor has emitted: the monitor emits nothing but `Toggle`, and
/// each is consumed before the next tick.
pub proof fn lemma_line_follows_emissions(trace: Seq<bool>, t: nat)
    ensures
        line_at(trace, t) == inverted_times(Level::High, emissions_before(trace, t)),
    decreases t,
{
    if t > 0 {
        lemma_line_follows_emissions(trace, (t - 1) as nat);
    }
}

/// While the monitor emits nothing, the line stays as it is.
proof fn lemma_line_constant(trace: Seq<bool>, from: nat, to: nat)
    requires
        from <= to,
        forall|t: nat| from <= t < to ==> emitted_at(trace, t) is None,
    ensures
        line_at(trace, to) == line_at(trace, from),
    decreases to - from,
{
    if from < to {
        lemma_line_constant(trace, from, (to - 1) as nat);
    }
}

/// Presses that are each held for at least 10 ms and that start at least
/// 30 ms apart, with the input high in between, produce exactly one `Toggle`
/// each, 10 ms after the press began, and the output line is inverted exactly
/// once for each press.
pub proof fn theorem_one_toggle_per_press(presses: Seq<Press>, len: nat)
    requires
        well_spaced(presses),
        forall|i: int| 0 <= i < presses.len() ==> (#[trigger] presses[i]).hold >= 10,
        presses.len() > 0 ==> len > presses.last().start + 10,
    ensures
        forall|t: nat|
            t < len ==> #[trigger] emitted_at(trace_of(presses, len), t) == expected_emission(
                presses,
                t as int,
            ),
        forall|i: int|
            0 <= i < presses.len() ==> emitted_at(
                trace_of(presses, len),
                (#[trigger] presses[i]).start + 10,
            ) == Some(Action::Toggle),
        emissions_before(trace_of(presses, len), len) == presses.len(),
        line_at(trace_of(presses, len), len) == inverted_times(Level::High, presses.len()),
{
    let trace = trace_of(presses, len);
    assert forall|t: nat| t < len implies #[trigger] emitted_at(trace, t) == expected_emission(
        presses,
        t as int,
    ) by {
        lemma_emissions(presses, len, t);
    }
    assert forall|i: int| 0 <= i < presses.len() implies emitted_at(
        trace,
        (#[trigger] presses[i]).start + 10,
    ) == Some(Action::Toggle) by {
        let t = presses[i].start + 10;
        if i < presses.len() - 1 {
            lemma_spacing(presses, i, presses.len() - 1);
        }
        assert(confirms_at(presses[i], t as int));
        lemma_emissions(presses, len, t);
    }
    lemma_emission_count(presses, len, len);
    lemma_confirmed_all(presses, len as int);
    lemma_line_follows_emissions(trace, len);
}

/// A press that ends before 10 ms are over produces no action and leaves the
/// output line as it was: from its falling edge until the next press begins,
/// the monitor emits nothing and the line does not change.
pub proof fn theorem_short_press_is_discarded(presses: Seq<Press>, len: nat, i: int, t: nat)
    requires
        well_spaced(presses),
        0 <= i < presses.len(),
        presses[i].hold < 10,
        presses[i].start <= t < len,
        i + 1 < presses.len() ==> t < presses[i + 1].start,
    ensures
        emitted_at(trace_of(presses, len), t) is None,
        line_at(trace_of(presses, len), (t + 1) as nat) == line_at(
            trace_of(presses, len),
            presses[i].start,
        ),
{
    let trace = trace_of(presses, len);
    assert forall|u: nat| presses[i].start <= u < t + 1 implies emitted_at(trace, u) is None by {
        lemma_emissions(presses, len, u);
        if confirmed_at(presses, u as int) {
            let j = choose|j: int|
                0 <= j < presses.len() && #[trigger] confirms_at(presses[j], u as int);
            if j < i {
                lemma_spacing(presses, j, i);
            } else if j > i {
                assert(follows(presses[i + 1 - 1], presses[i + 1]));
                if j > i + 1 {
                    lemma_spacing(presses, i + 1, j);
                }
            }
        }
    }
    lemma_line_constant(trace, presses[i].start, (t + 1) as nat);
}

} // verus!
