//! The control bridge: the remote control point, the action that a remote
//! write asks for, and the cycle of advertising and serving.
//!
//! The protocol stack does the radio work. The bridge decides what is asked
//! of it next, and what a write means.

use vstd::prelude::*;
use crate::action::Action;
use crate::version::VersionString;

verus! {

/// Advertising interval in units of 625 microseconds: one second.
pub const ADVERTISING_INTERVAL: u32 = 1600;

/// What a peer did to the control service.
#[derive(Clone, Copy, Debug, PartialEq, Eq, Structural)]
pub enum ControlServiceEvent {
    /// The peer wrote the control point.
    TriacControlWrite(bool),
}

/// What a peer did to the attribute server.
#[derive(Clone, Copy, Debug, PartialEq, Eq, Structural)]
pub enum GattServerEvent {
    /// Something happened to the control service.
    Control(ControlServiceEvent),
}

/// The one service of the device: a control point that a peer reads and
/// writes, and a version string that it can only read.
pub struct ControlService {
    triac_control: bool,
    version: VersionString,
}

impl ControlService {
    /// The value of the control point.
    pub closed spec fn triac_control_spec(&self) -> bool {
        self.triac_control
    }

    /// The text of the version string.
    pub closed spec fn version_spec(&self) -> Seq<char> {
        self.version@
    }

    /// A service that publishes `version`, with the control point at `false`.
    pub fn new(version: VersionString) -> (service: ControlService)
        ensures
            service.version_spec() == version@,
            !service.triac_control_spec(),
    {
        ControlService { triac_control: false, version }
    }

    /// Returns the value that a peer reads from the control point: the one
    /// written last.
    pub fn triac_control_get(&self) -> (value: bool)
        ensures
            value == self.triac_control_spec(),
    {
        self.triac_control
    }

    /// Returns the version string that a peer reads.
    pub fn version_get(&self) -> (version: &VersionString)
        ensures
            version@ == self.version_spec(),
    {
        &self.version
    }

    /// Records a peer's write to the control point and reports it. The
    /// version string stays as it is.
    pub fn on_write(&mut self, value: bool) -> (event: ControlServiceEvent)
        ensures
            event == ControlServiceEvent::TriacControlWrite(value),
            final(self).triac_control_spec() == value,
            final(self).version_spec() == old(self).version_spec(),
    {
        self.triac_control = value;
        ControlServiceEvent::TriacControlWrite(value)
    }
}

/// The attribute server that holds the control service.
pub struct GattServer {
    control: ControlService,
}

impl GattServer {
    /// The control service.
    pub closed spec fn control_spec(&self) -> ControlService {
        self.control
    }

    /// A server whose control service publishes `version`.
    pub fn new(version: VersionString) -> (server: GattServer)
        ensures
            server.control_spec().version_spec() == version@,
            !server.control_spec().triac_control_spec(),
    {
        GattServer { control: ControlService::new(version) }
    }

    /// Returns the control service.
    pub fn control(&self) -> (control: &ControlService)
        ensures
            *control == self.control_spec(),
    {
        &self.control
    }

    /// Records a peer's write to the control point and reports it as an event
    /// of the server.
    pub fn on_write(&mut self, value: bool) -> (event: GattServerEvent)
        ensures
            event == GattServerEvent::Control(ControlServiceEvent::TriacControlWrite(value)),
            final(self).control_spec().triac_control_spec() == value,
            final(self).control_spec().version_spec() == old(self).control_spec().version_spec(),
    {
        GattServerEvent::Control(self.control.on_write(value))
    }
}

/// The action that a write of `value` to the control point asks for.
pub open spec fn write_action(value: bool) -> Action {
    if value {
        Action::TurnOn
    } else {
        Action::TurnOff
    }
}

/// The action that a server event asks for.
pub open spec fn event_action(event: GattServerEvent) -> Action {
    match event {
        GattServerEvent::Control(ControlServiceEvent::TriacControlWrite(value)) => write_action(
            value,
        ),
    }
}

/// Returns the action to write into the mailbox for a server event.
pub fn action_for(event: GattServerEvent) -> (action: Action)
    ensures
        action == event_action(event),
        action != Action::Toggle,
{
    match event {
        GattServerEvent::Control(ControlServiceEvent::TriacControlWrite(value)) => {
            if value {
                Action::TurnOn
            } else {
                Action::TurnOff
            }
        },
    }
}

/// How the device advertises itself.
pub struct Advertisement {
    /// The name that the device shows.
    pub name: &'static str,
    /// Whether any peer may discover the device, at any time.
    pub general_discovery: bool,
    /// Whether the device speaks the low-energy protocol only.
    pub le_only: bool,
    /// Whether the advertisement is directed at one peer. It is not: any
    /// peer may connect.
    pub directed: bool,
    /// Whether a peer may ask for a scan response. It may, and gets an empty
    /// one: nothing is set up beyond the defaults.
    pub scannable: bool,
    /// Interval between two advertising events, in units of 625 microseconds.
    pub interval: u32,
}

/// The advertisement of the device: its name, open to discovery by any
/// peer, once a second.
pub fn advertisement() -> (advertisement: Advertisement)
    ensures
        advertisement.name@ == "Nordic Switch"@,
        advertisement.general_discovery,
        advertisement.le_only,
        !advertisement.directed,
        advertisement.scannable,
        advertisement.interval == ADVERTISING_INTERVAL,
        advertisement.interval * 625 == 1_000_000,
{
    Advertisement {
        name: "Nordic Switch",
        general_discovery: true,
        le_only: true,
        directed: false,
        scannable: true,
        interval: ADVERTISING_INTERVAL,
    }
}

/// Where the connection cycle stands.
#[derive(Clone, Copy, Debug, PartialEq, Eq, Structural)]
pub enum BridgePhase {
    /// The version string is not yet published.
    Startup,
    /// The device advertises and waits for a peer.
    Advertising,
    /// A peer is connected and the attribute server runs.
    Serving,
}

/// What the protocol stack reports back to the bridge.
#[derive(Clone, Copy, Debug, PartialEq, Eq, Structural)]
pub enum BridgeEvent {
    /// The version string stands in the attribute table.
    VersionPublished,
    /// An advertising attempt failed.
    AdvertiseFailed,
    /// A peer connected.
    Connected,
    /// The peer is gone.
    Disconnected,
}

/// What the bridge asks of the protocol stack next.
#[derive(Clone, Copy, Debug, PartialEq, Eq, Structural)]
pub enum BridgeCommand {
    /// Put the version string into the attribute table.
    PublishVersion,
    /// Advertise until a peer connects or the attempt fails.
    Advertise,
    /// Run the attribute server until the peer disconnects.
    Serve,
}

/// The phase that follows `phase` on `event`. A failed attempt leaves the
/// bridge advertising; an event that the phase does not wait for changes
/// nothing.
pub open spec fn next_bridge_phase(phase: BridgePhase, event: BridgeEvent) -> BridgePhase {
    match (phase, event) {
        (BridgePhase::Startup, BridgeEvent::VersionPublished) => BridgePhase::Advertising,
        (BridgePhase::Advertising, BridgeEvent::AdvertiseFailed) => BridgePhase::Advertising,
        (BridgePhase::Advertising, BridgeEvent::Connected) => BridgePhase::Serving,
        (BridgePhase::Serving, BridgeEvent::Disconnected) => BridgePhase::Advertising,
        _ => phase,
    }
}

/// The command that is due in `phase`.
pub open spec fn bridge_command_for(phase: BridgePhase) -> BridgeCommand {
    match phase {
        BridgePhase::Startup => BridgeCommand::PublishVersion,
        BridgePhase::Advertising => BridgeCommand::Advertise,
        BridgePhase::Serving => BridgeCommand::Serve,
    }
}

/// The phase reached from `phase` when the events of `events` come in turn.
pub open spec fn bridge_phase_after(phase: BridgePhase, events: Seq<BridgeEvent>) -> BridgePhase
    decreases events.len(),
{
    if events.len() == 0 {
        phase
    } else {
        next_bridge_phase(bridge_phase_after(phase, events.drop_last()), events.last())
    }
}

/// The bridge between the remote control point and the mailbox.
pub struct ControlBridge {
    phase: BridgePhase,
    server: GattServer,
}

impl ControlBridge {
    /// The phase that the bridge is in.
    pub closed spec fn phase_spec(&self) -> BridgePhase {
        self.phase
    }

    /// The attribute server.
    pub closed spec fn server_spec(&self) -> GattServer {
        self.server
    }

    /// The text of the version string that the bridge publishes.
    pub open spec fn version_spec(&self) -> Seq<char> {
        self.server_spec().control_spec().version_spec()
    }

    /// The value of the control point.
    pub open spec fn triac_control_spec(&self) -> bool {
        self.server_spec().control_spec().triac_control_spec()
    }

    /// A bridge at start-up. It holds `version` from here on: nothing sets it
    /// again.
    pub fn new(version: VersionString) -> (bridge: ControlBridge)
        ensures
            bridge.phase_spec() == BridgePhase::Startup,
            bridge.version_spec() == version@,
            !bridge.triac_control_spec(),
    {
        ControlBridge { phase: BridgePhase::Startup, server: GattServer::new(version) }
    }

    /// Returns the phase that the bridge is in.
    pub fn phase(&self) -> (phase: BridgePhase)
        ensures
            phase == self.phase_spec(),
    {
        self.phase
    }

    /// Returns the attribute server.
    pub fn server(&self) -> (server: &GattServer)
        ensures
            *server == self.server_spec(),
    {
        &self.server
    }

    /// Returns what the protocol stack has to do before the next event.
    pub fn command(&self) -> (command: BridgeCommand)
        ensures
            command == bridge_command_for(self.phase_spec()),
    {
        match self.phase {
            BridgePhase::Startup => BridgeCommand::PublishVersion,
            BridgePhase::Advertising => BridgeCommand::Advertise,
            BridgePhase::Serving => BridgeCommand::Serve,
        }
    }

    /// Takes one event of the connection cycle.
    pub fn step(&mut self, event: BridgeEvent)
        ensures
            final(self).phase_spec() == next_bridge_phase(old(self).phase_spec(), event),
            final(self).server_spec() == old(self).server_spec(),
    {
        match (self.phase, event) {
            (BridgePhase::Startup, BridgeEvent::VersionPublished) => {
                self.phase = BridgePhase::Advertising;
            },
            (BridgePhase::Advertising, BridgeEvent::Connected) => {
                self.phase = BridgePhase::Serving;
            },
            (BridgePhase::Serving, BridgeEvent::Disconnected) => {
                self.phase = BridgePhase::Advertising;
            },
            _ => {},
        }
    }

    /// Takes a peer's write to the control point: records the value and
    /// returns the action to write into the mailbox.
    pub fn on_write(&mut self, value: bool) -> (action: Action)
        ensures
            action == write_action(value),
            final(self).triac_control_spec() == value,
            final(self).version_spec() == old(self).version_spec(),
            final(self).phase_spec() == old(self).phase_spec(),
    {
        let event = self.server.on_write(value);
        action_for(event)
    }
}

/// However often advertising fails, the bridge goes on advertising: the next
/// command is one more attempt.
pub proof fn lemma_bridge_never_gives_up(failures: Seq<BridgeEvent>)
    requires
        forall|i: int| 0 <= i < failures.len() ==> failures[i] == BridgeEvent::AdvertiseFailed,
    ensures
        bridge_phase_after(BridgePhase::Advertising, failures) == BridgePhase::Advertising,
        bridge_command_for(bridge_phase_after(BridgePhase::Advertising, failures))
            == BridgeCommand::Advertise,
    decreases failures.len(),
{
    if failures.len() > 0 {
        lemma_bridge_never_gives_up(failures.drop_last());
    }
}

/// The version string is published once: the cycle starts only after it, and
/// whatever happens then, the bridge never asks for it again.
pub proof fn lemma_version_published_once(phase: BridgePhase, events: Seq<BridgeEvent>)
    ensures
        bridge_command_for(phase) == BridgeCommand::PublishVersion <==> phase
            == BridgePhase::Startup,
        phase != BridgePhase::Startup ==> bridge_phase_after(phase, events)
            != BridgePhase::Startup,
        bridge_phase_after(phase, events) != BridgePhase::Startup ==> bridge_command_for(
            bridge_phase_after(phase, events),
        ) != BridgeCommand::PublishVersion,
    decreases events.len(),
{
    if events.len() > 0 {
        lemma_version_published_once(phase, events.drop_last());
    }
}

} // verus!
