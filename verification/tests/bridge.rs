use nordic_switch::action::Action;
use nordic_switch::bridge::action_for;
use nordic_switch::bridge::advertisement;
use nordic_switch::bridge::BridgeCommand;
use nordic_switch::bridge::BridgeEvent;
use nordic_switch::bridge::BridgePhase;
use nordic_switch::bridge::ControlBridge;
use nordic_switch::bridge::ControlService;
use nordic_switch::bridge::ControlServiceEvent;
use nordic_switch::bridge::GattServer;
use nordic_switch::bridge::GattServerEvent;
use nordic_switch::bridge::ADVERTISING_INTERVAL;
use nordic_switch::version::VersionString;
use nordic_switch::version::VERSION_CAPACITY;

fn version(text: &str) -> VersionString {
    VersionString::new(text).unwrap()
}

#[test]
fn write_true_asks_for_turn_on() {
    let event = GattServerEvent::Control(ControlServiceEvent::TriacControlWrite(true));
    assert_eq!(action_for(event), Action::TurnOn);
}

#[test]
fn write_false_asks_for_turn_off() {
    let event = GattServerEvent::Control(ControlServiceEvent::TriacControlWrite(false));
    assert_eq!(action_for(event), Action::TurnOff);
}

#[test]
fn bridge_write_records_value_and_gives_action() {
    let mut bridge = ControlBridge::new(version("v1.2.3"));
    assert!(!bridge.server().control().triac_control_get());
    assert_eq!(bridge.on_write(true), Action::TurnOn);
    assert!(bridge.server().control().triac_control_get());
    assert_eq!(bridge.on_write(false), Action::TurnOff);
    assert!(!bridge.server().control().triac_control_get());
    assert_eq!(bridge.server().control().version_get().as_str(), "v1.2.3");
}

#[test]
fn service_reports_each_write() {
    let mut service = ControlService::new(version("abc"));
    assert!(!service.triac_control_get());
    assert_eq!(service.on_write(true), ControlServiceEvent::TriacControlWrite(true));
    assert!(service.triac_control_get());
    assert_eq!(service.version_get().as_str(), "abc");
    let mut server = GattServer::new(version("abc"));
    assert_eq!(
        server.on_write(false),
        GattServerEvent::Control(ControlServiceEvent::TriacControlWrite(false))
    );
    assert!(!server.control().triac_control_get());
}

#[test]
fn version_is_published_before_advertising() {
    let mut bridge = ControlBridge::new(version("v0.1.0-3-gabcdef"));
    assert_eq!(bridge.phase(), BridgePhase::Startup);
    assert_eq!(bridge.command(), BridgeCommand::PublishVersion);
    bridge.step(BridgeEvent::Connected);
    assert_eq!(bridge.phase(), BridgePhase::Startup);
    bridge.step(BridgeEvent::VersionPublished);
    assert_eq!(bridge.phase(), BridgePhase::Advertising);
    assert_eq!(bridge.command(), BridgeCommand::Advertise);
    bridge.step(BridgeEvent::VersionPublished);
    assert_eq!(bridge.command(), BridgeCommand::Advertise);
}

#[test]
fn three_failures_then_a_fourth_attempt() {
    let mut bridge = ControlBridge::new(version("v1"));
    bridge.step(BridgeEvent::VersionPublished);
    for _ in 0..3 {
        assert_eq!(bridge.command(), BridgeCommand::Advertise);
        bridge.step(BridgeEvent::AdvertiseFailed);
        assert_eq!(bridge.phase(), BridgePhase::Advertising);
    }
    assert_eq!(bridge.command(), BridgeCommand::Advertise);
    bridge.step(BridgeEvent::Connected);
    assert_eq!(bridge.command(), BridgeCommand::Serve);
}

#[test]
fn bridge_advertises_again_after_disconnect() {
    let mut bridge = ControlBridge::new(version("v1"));
    bridge.step(BridgeEvent::VersionPublished);
    bridge.step(BridgeEvent::Connected);
    assert_eq!(bridge.phase(), BridgePhase::Serving);
    bridge.step(BridgeEvent::AdvertiseFailed);
    assert_eq!(bridge.phase(), BridgePhase::Serving);
    bridge.step(BridgeEvent::Disconnected);
    assert_eq!(bridge.phase(), BridgePhase::Advertising);
    assert_eq!(bridge.command(), BridgeCommand::Advertise);
    bridge.step(BridgeEvent::Disconnected);
    assert_eq!(bridge.phase(), BridgePhase::Advertising);
}

#[test]
fn many_failures_never_stop_the_bridge() {
    let mut bridge = ControlBridge::new(version("v1"));
    bridge.step(BridgeEvent::VersionPublished);
    for _ in 0..1000 {
        bridge.step(BridgeEvent::AdvertiseFailed);
    }
    assert_eq!(bridge.command(), BridgeCommand::Advertise);
}

#[test]
fn advertisement_names_the_device_once_a_second() {
    let advertisement = advertisement();
    assert_eq!(advertisement.name, "Nordic Switch");
    assert!(advertisement.general_discovery);
    assert!(advertisement.le_only);
    assert!(!advertisement.directed);
    assert!(advertisement.scannable);
    assert_eq!(advertisement.interval, 1600);
    assert_eq!(ADVERTISING_INTERVAL, 1600);
    assert_eq!(advertisement.interval as u64 * 625, 1_000_000);
}

#[test]
fn version_of_32_bytes_fits() {
    let text = "0123456789abcdef0123456789abcdef";
    assert_eq!(text.len(), VERSION_CAPACITY);
    let version = VersionString::new(text).unwrap();
    assert_eq!(version.as_str(), text);
    assert_eq!(version.as_bounded().as_str(), text);
}

#[test]
fn version_of_33_bytes_is_refused() {
    assert!(VersionString::new("0123456789abcdef0123456789abcdef0").is_none());
}

#[test]
fn version_is_bounded_in_bytes_not_chars() {
    // 16 characters of two bytes each fit; a 17th does not.
    let fits = "éééééééééééééééé";
    assert_eq!(fits.len(), 32);
    assert_eq!(VersionString::new(fits).unwrap().as_str(), fits);
    let too_long = "ééééééééééééééééé";
    assert_eq!(too_long.chars().count(), 17);
    assert!(VersionString::new(too_long).is_none());
}

#[test]
fn empty_version_is_accepted() {
    assert_eq!(VersionString::new("").unwrap().as_str(), "");
}
