//! The button monitor: a two-stage debounce, confirm then guard.
//!
//! The monitor decides; its caller does the waiting. The caller performs the
//! command that the monitor gives, and reports what came of it as an event.

use vstd::prelude::*;
use crate::action::Action;

verus! {

/// Time between a falling edge and the sample that confirms the press.
pub const CONFIRM_MILLIS: u64 = 10;

/// Time for which edges are ignored after the confirming sample.
pub const GUARD_MILLIS: u64 = 20;

/// Where the monitor stands.
#[derive(Clone, Copy, Debug, PartialEq, Eq, Structural)]
pub enum ButtonPhase {
    /// Waiting for a falling edge on the input.
    Idle,
    /// An edge was seen; the confirming sample is due when the sleep ends.
    DebounceConfirm,
    /// The sample was taken; edges are ignored until the sleep ends.
    ReleaseGuard,
}

/// What the caller reports back to the monitor.
#[derive(Clone, Copy, Debug, PartialEq, Eq, Structural)]
pub enum ButtonEvent {
    /// The input went from high to low while the monitor listened for it.
    FallingEdge,
    /// The sleep that the monitor asked for is over; `pin_low` is the level
    /// of the input at that moment (the input is active-low).
    Elapsed { pin_low: bool },
}

/// What the monitor asks its caller to do next.
#[derive(Clone, Copy, Debug, PartialEq, Eq, Structural)]
pub enum ButtonCommand {
    /// Suspend until the input shows a falling edge.
    AwaitFallingEdge,
    /// Suspend for `millis` milliseconds, then sample the input.
    Sleep { millis: u64 },
}

/// The phase that follows `phase` on `event`. An event that the phase does not
/// wait for changes nothing.
pub open spec fn next_phase(phase: ButtonPhase, event: ButtonEvent) -> ButtonPhase {
    match (phase, event) {
        (ButtonPhase::Idle, ButtonEvent::FallingEdge) => ButtonPhase::DebounceConfirm,
        (ButtonPhase::DebounceConfirm, ButtonEvent::Elapsed { .. }) => ButtonPhase::ReleaseGuard,
        (ButtonPhase::ReleaseGuard, ButtonEvent::Elapsed { .. }) => ButtonPhase::Idle,
        _ => phase,
    }
}

/// The action that `event` makes the monitor emit in `phase`: a `Toggle` when
/// the confirming sample finds the input still low, nothing otherwise.
pub open spec fn emitted(phase: ButtonPhase, event: ButtonEvent) -> Option<Action> {
    match (phase, event) {
        (ButtonPhase::DebounceConfirm, ButtonEvent::Elapsed { pin_low: true }) => Some(
            Action::Toggle,
        ),
        _ => None,
    }
}

/// The command that is due in `phase`.
pub open spec fn command_for(phase: ButtonPhase) -> ButtonCommand {
    match phase {
        ButtonPhase::Idle => ButtonCommand::AwaitFallingEdge,
        ButtonPhase::DebounceConfirm => ButtonCommand::Sleep { millis: CONFIRM_MILLIS },
        ButtonPhase::ReleaseGuard => ButtonCommand::Sleep { millis: GUARD_MILLIS },
    }
}

/// Debounces the push-button and turns each confirmed press into a `Toggle`.
pub struct ButtonMonitor {
    phase: ButtonPhase,
}

impl ButtonMonitor {
    /// The phase that the monitor is in.
    pub closed spec fn phase_spec(&self) -> ButtonPhase {
        self.phase
    }

    /// A monitor that waits for the first edge.
    pub fn new() -> (monitor: ButtonMonitor)
        ensures
            monitor.phase_spec() == ButtonPhase::Idle,
    {
        ButtonMonitor { phase: ButtonPhase::Idle }
    }

    /// Returns the phase that the monitor is in.
    pub fn phase(&self) -> (phase: ButtonPhase)
        ensures
            phase == self.phase_spec(),
    {
        self.phase
    }

    /// Returns what the caller has to do before it reports the next event.
    pub fn command(&self) -> (command: ButtonCommand)
        ensures
            command == command_for(self.phase_spec()),
    {
        match self.phase {
            ButtonPhase::Idle => ButtonCommand::AwaitFallingEdge,
            ButtonPhase::DebounceConfirm => ButtonCommand::Sleep { millis: CONFIRM_MILLIS },
            ButtonPhase::ReleaseGuard => ButtonCommand::Sleep { millis: GUARD_MILLIS },
        }
    }

    /// Takes one event. Returns the action to write into the mailbox, if the
    /// event confirms a press.
    pub fn step(&mut self, event: ButtonEvent) -> (action: Option<Action>)
        ensures
            final(self).phase_spec() == next_phase(old(self).phase_spec(), event),
            action == emitted(old(self).phase_spec(), event),
    {
        match (self.phase, event) {
            (ButtonPhase::Idle, ButtonEvent::FallingEdge) => {
                self.phase = ButtonPhase::DebounceConfirm;
                None
            },
            (ButtonPhase::DebounceConfirm, ButtonEvent::Elapsed { pin_low }) => {
                self.phase = ButtonPhase::ReleaseGuard;
                if pin_low {
                    Some(Action::Toggle)
                } else {
                    None
                }
            },
            (ButtonPhase::ReleaseGuard, ButtonEvent::Elapsed { .. }) => {
                self.phase = ButtonPhase::Idle;
                None
            },
            _ => None,
        }
    }
}

} // verus!
