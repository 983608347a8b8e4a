//! Control logic of a cord switch that drives an AC load through a triac.
//!
//! Two producers ask for actions: a push-button, debounced by the
//! [`button`] monitor, and a remote peer that writes the control point of
//! the [`bridge`]. Both write into the one-slot [`mailbox`]; the
//! [`actuator`] controller takes what is pending and drives the output line.
//! [`system`] puts the parts together, and [`timeline`] says what the
//! monitor and the line do for a given course of the input.
//!
//! Nothing here waits or touches a pin. Each part decides, and tells its
//! caller what to wait for.

pub mod action;
pub mod actuator;
pub mod bridge;
pub mod button;
pub mod mailbox;
pub mod system;
pub mod timeline;
pub mod version;
