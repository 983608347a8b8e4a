//! How the parts act together: two producers, one mailbox, one consumer.
//!
//! The button monitor and the control bridge write into the mailbox without
//! knowing of each other. The actuator controller takes what is pending and
//! drives the line. What the consumer sees is decided by the mailbox alone.

use vstd::prelude::*;
use crate::action::Action;
use crate::action::ActuatorState;
use crate::action::Level;
use crate::actuator::drive_spec;
use crate::actuator::ActuatorController;
use crate::bridge::write_action;
use crate::bridge::ControlBridge;
use crate::button::emitted;
use crate::button::next_phase;
use crate::button::ButtonEvent;
use crate::button::ButtonMonitor;
use crate::button::ButtonPhase;
use crate::mailbox::after_signal;
use crate::mailbox::after_take;
use crate::mailbox::ActionMailbox;

verus! {

/// What the consumer does with the slot: the action that it takes, if one is
/// pending, the empty slot that it leaves, and the level that it then drives
/// on a line that drove `line`.
pub open spec fn consume(slot: Option<Action>, line: Level) -> (
    Option<Action>,
    Option<Action>,
    Level,
) {
    let (taken, left) = after_take(slot);
    match taken {
        Some(action) => (taken, left, drive_spec(line, action)),
        None => (taken, left, line),
    }
}

/// The slot after the button monitor took `event` in `phase`: what it emits
/// is written, and the slot stays as it is where it emits nothing.
pub open spec fn after_button_event(
    slot: Option<Action>,
    phase: ButtonPhase,
    event: ButtonEvent,
) -> Option<Action> {
    match emitted(phase, event) {
        Some(action) => after_signal(slot, action),
        None => slot,
    }
}

/// The button monitor's turn: it takes `event` and writes what it emits into
/// the mailbox.
pub fn on_button_event(monitor: &mut ButtonMonitor, event: ButtonEvent, mailbox: &mut ActionMailbox)
    ensures
        final(monitor).phase_spec() == next_phase(old(monitor).phase_spec(), event),
        final(mailbox)@ == after_button_event(old(mailbox)@, old(monitor).phase_spec(), event),
{
    match monitor.step(event) {
        Some(action) => mailbox.signal(action),
        None => {},
    }
}

/// The control bridge's turn: a peer wrote `value` to the control point, and
/// the action that this asks for is written into the mailbox.
pub fn on_remote_write(bridge: &mut ControlBridge, value: bool, mailbox: &mut ActionMailbox)
    ensures
        final(mailbox)@ == after_signal(old(mailbox)@, write_action(value)),
        final(bridge).triac_control_spec() == value,
        final(bridge).version_spec() == old(bridge).version_spec(),
        final(bridge).phase_spec() == old(bridge).phase_spec(),
{
    let action = bridge.on_write(value);
    mailbox.signal(action);
}

/// The actuator controller's turn: it takes the pending action, if there is
/// one, and drives the line accordingly. Returns the action taken; `None`
/// tells the caller that the controller has to suspend until the next write.
pub fn run_consumer(controller: &mut ActuatorController, mailbox: &mut ActionMailbox) -> (taken:
    Option<Action>)
    ensures
        (taken, final(mailbox)@, final(controller).line_spec()) == consume(
            old(mailbox)@,
            old(controller).line_spec(),
        ),
{
    match mailbox.try_take() {
        Some(action) => {
            controller.apply(action);
            Some(action)
        },
        None => None,
    }
}

/// Two remote writes that follow each other before the consumer runs: the
/// consumer sees the action of the second write and never that of the first.
/// The slot is empty afterwards, so nothing of the first write is left.
pub proof fn lemma_second_remote_write_wins(
    slot: Option<Action>,
    line: Level,
    first: bool,
    second: bool,
)
    ensures
        consume(after_signal(after_signal(slot, write_action(first)), write_action(second)), line)
            == (Some(write_action(second)), None::<Action>, drive_spec(line, write_action(second))),
{
}

/// A remote write of `true` followed, before the consumer runs, by a write of
/// `false`: the consumer sees `TurnOff` alone and the load ends up off.
pub proof fn lemma_off_after_on_is_off(slot: Option<Action>, line: Level)
    ensures
        consume(after_signal(after_signal(slot, write_action(true)), write_action(false)), line).0
            == Some(Action::TurnOff),
        consume(after_signal(after_signal(slot, write_action(true)), write_action(false)), line).1
            is None,
        consume(
            after_signal(after_signal(slot, write_action(true)), write_action(false)),
            line,
        ).2.state_spec() == ActuatorState::Off,
{
}

} // verus!
