//! The consumer side: maps each action taken from the mailbox to the level
//! driven on the output line.

use vstd::prelude::*;
use crate::action::Action;
use crate::action::ActuatorState;
use crate::action::Level;

verus! {

/// The level that the line drives after `action`, when it drove `line` before.
pub open spec fn drive_spec(line: Level, action: Action) -> Level {
    match action {
        Action::TurnOn => Level::Low,
        Action::TurnOff => Level::High,
        Action::Toggle => line.inverted(),
    }
}

/// The level that the line drives after each action of `actions` was applied
/// in turn, starting from `line`.
pub open spec fn drive_all(line: Level, actions: Seq<Action>) -> Level
    decreases actions.len(),
{
    if actions.len() == 0 {
        line
    } else {
        drive_spec(drive_all(line, actions.drop_last()), actions.last())
    }
}

/// `line` inverted `times` times.
pub open spec fn inverted_times(line: Level, times: nat) -> Level
    decreases times,
{
    if times == 0 {
        line
    } else {
        inverted_times(line, (times - 1) as nat).inverted()
    }
}

/// Decides the level to drive for `action`, given the level that the line
/// drives now.
pub fn drive(line: Level, action: Action) -> (next: Level)
    ensures
        next == drive_spec(line, action),
{
    match action {
        Action::TurnOn => Level::Low,
        Action::TurnOff => Level::High,
        Action::Toggle => line.invert(),
    }
}

/// Drives the output line. It keeps nothing but the level of the line itself.
pub struct ActuatorController {
    line: Level,
}

impl ActuatorController {
    /// The level that the line drives.
    pub closed spec fn line_spec(&self) -> Level {
        self.line
    }

    /// A controller at start-up: the line is high, the load off, before any
    /// action is processed.
    pub fn new() -> (controller: ActuatorController)
        ensures
            controller.line_spec() == Level::High,
            controller.line_spec().state_spec() == ActuatorState::Off,
    {
        ActuatorController { line: Level::High }
    }

    /// Returns the level that the line drives.
    pub fn line(&self) -> (line: Level)
        ensures
            line == self.line_spec(),
    {
        self.line
    }

    /// Returns the logical state of the load.
    pub fn state(&self) -> (state: ActuatorState)
        ensures
            state == self.line_spec().state_spec(),
    {
        self.line.state()
    }

    /// Processes one action taken from the mailbox and returns the level to
    /// drive from now on.
    pub fn apply(&mut self, action: Action) -> (line: Level)
        ensures
            final(self).line_spec() == drive_spec(old(self).line_spec(), action),
            line == final(self).line_spec(),
    {
        self.line = drive(self.line, action);
        self.line
    }
}

/// `TurnOn` and `TurnOff` settle the line whatever it drove before, and
/// `Toggle` always changes it.
pub proof fn lemma_drive_outcomes(line: Level)
    ensures
        drive_spec(line, Action::TurnOn).state_spec() == ActuatorState::On,
        drive_spec(line, Action::TurnOff).state_spec() == ActuatorState::Off,
        drive_spec(line, Action::Toggle) != line,
        drive_spec(drive_spec(line, Action::Toggle), Action::Toggle) == line,
{
}

/// A run of `Toggle` actions, each consumed, inverts the line once per action.
pub proof fn lemma_toggles_invert(line: Level, actions: Seq<Action>)
    requires
        forall|i: int| 0 <= i < actions.len() ==> actions[i] == Action::Toggle,
    ensures
        drive_all(line, actions) == inverted_times(line, actions.len()),
    decreases actions.len(),
{
    if actions.len() > 0 {
        lemma_toggles_invert(line, actions.drop_last());
    }
}

} // verus!
