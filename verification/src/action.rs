//! Actions that the producers request and the drive level they lead to.

use vstd::prelude::*;

verus! {

/// What a producer asks of the actuator.
#[derive(Clone, Copy, Debug, PartialEq, Eq, Structural)]
pub enum Action {
    /// Energize the load.
    TurnOn,
    /// De-energize the load.
    TurnOff,
    /// Invert whatever the line is driving.
    Toggle,
}

/// Level driven on the physical output line.
#[derive(Clone, Copy, Debug, PartialEq, Eq, Structural)]
pub enum Level {
    Low,
    High,
}

/// Logical state of the load.
#[derive(Clone, Copy, Debug, PartialEq, Eq, Structural)]
pub enum ActuatorState {
    /// The load is energized.
    On,
    /// The load is de-energized.
    Off,
}

impl Level {
    /// The opposite level.
    pub open spec fn inverted(self) -> Level {
        match self {
            Level::Low => Level::High,
            Level::High => Level::Low,
        }
    }

    /// The logical state that the level stands for. The line is inverted: a
    /// low line energizes the load.
    pub open spec fn state_spec(self) -> ActuatorState {
        match self {
            Level::Low => ActuatorState::On,
            Level::High => ActuatorState::Off,
        }
    }

    /// Returns the logical state that the level stands for.
    pub fn state(self) -> (state: ActuatorState)
        ensures
            state == self.state_spec(),
    {
        match self {
            Level::Low => ActuatorState::On,
            Level::High => ActuatorState::Off,
        }
    }

    /// Returns the opposite level.
    pub fn invert(self) -> (out: Level)
        ensures
            out == self.inverted(),
    {
        match self {
            Level::Low => Level::High,
            Level::High => Level::Low,
        }
    }
}

} // verus!
