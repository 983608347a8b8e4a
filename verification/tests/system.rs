use nordic_switch::action::Action;
use nordic_switch::action::ActuatorState;
use nordic_switch::action::Level;
use nordic_switch::actuator::ActuatorController;
use nordic_switch::bridge::ControlBridge;
use nordic_switch::button::ButtonEvent;
use nordic_switch::button::ButtonMonitor;
use nordic_switch::button::ButtonPhase;
use nordic_switch::mailbox::ActionMailbox;
use nordic_switch::system::on_button_event;
use nordic_switch::system::on_remote_write;
use nordic_switch::system::run_consumer;
use nordic_switch::version::VersionString;

fn bridge() -> ControlBridge {
    ControlBridge::new(VersionString::new("v1.0.0").unwrap())
}

#[test]
fn line_is_high_before_the_first_action() {
    let mut controller = ActuatorController::new();
    let mut mailbox = ActionMailbox::new();
    assert_eq!(controller.line(), Level::High);
    assert_eq!(run_consumer(&mut controller, &mut mailbox), None);
    assert_eq!(controller.line(), Level::High);
    assert_eq!(controller.state(), ActuatorState::Off);
}

#[test]
fn write_true_then_false_leaves_only_turn_off() {
    let mut bridge = bridge();
    let mut mailbox = ActionMailbox::new();
    let mut controller = ActuatorController::new();
    on_remote_write(&mut bridge, true, &mut mailbox);
    on_remote_write(&mut bridge, false, &mut mailbox);
    assert_eq!(run_consumer(&mut controller, &mut mailbox), Some(Action::TurnOff));
    assert_eq!(controller.line(), Level::High);
    assert_eq!(run_consumer(&mut controller, &mut mailbox), None);
    assert_eq!(controller.line(), Level::High);
}

#[test]
fn write_false_then_true_leaves_only_turn_on() {
    let mut bridge = bridge();
    let mut mailbox = ActionMailbox::new();
    let mut controller = ActuatorController::new();
    on_remote_write(&mut bridge, false, &mut mailbox);
    on_remote_write(&mut bridge, true, &mut mailbox);
    assert_eq!(run_consumer(&mut controller, &mut mailbox), Some(Action::TurnOn));
    assert_eq!(controller.line(), Level::Low);
    assert_eq!(controller.state(), ActuatorState::On);
    assert_eq!(run_consumer(&mut controller, &mut mailbox), None);
}

#[test]
fn toggle_then_turn_on_is_seen_as_turn_on() {
    let mut monitor = ButtonMonitor::new();
    let mut bridge = bridge();
    let mut mailbox = ActionMailbox::new();
    let mut controller = ActuatorController::new();
    on_button_event(&mut monitor, ButtonEvent::FallingEdge, &mut mailbox);
    on_button_event(&mut monitor, ButtonEvent::Elapsed { pin_low: true }, &mut mailbox);
    assert!(mailbox.signaled());
    on_remote_write(&mut bridge, true, &mut mailbox);
    assert_eq!(run_consumer(&mut controller, &mut mailbox), Some(Action::TurnOn));
    assert_eq!(controller.line(), Level::Low);
    assert_eq!(run_consumer(&mut controller, &mut mailbox), None);
}

#[test]
fn turn_on_then_toggle_is_seen_as_toggle() {
    let mut monitor = ButtonMonitor::new();
    let mut bridge = bridge();
    let mut mailbox = ActionMailbox::new();
    let mut controller = ActuatorController::new();
    on_button_event(&mut monitor, ButtonEvent::FallingEdge, &mut mailbox);
    on_remote_write(&mut bridge, true, &mut mailbox);
    on_button_event(&mut monitor, ButtonEvent::Elapsed { pin_low: true }, &mut mailbox);
    assert_eq!(run_consumer(&mut controller, &mut mailbox), Some(Action::Toggle));
    assert_eq!(controller.line(), Level::Low);
    assert_eq!(run_consumer(&mut controller, &mut mailbox), None);
}

#[test]
fn button_event_without_emission_leaves_the_mailbox() {
    let mut monitor = ButtonMonitor::new();
    let mut bridge = bridge();
    let mut mailbox = ActionMailbox::new();
    on_remote_write(&mut bridge, false, &mut mailbox);
    on_button_event(&mut monitor, ButtonEvent::FallingEdge, &mut mailbox);
    on_button_event(&mut monitor, ButtonEvent::Elapsed { pin_low: false }, &mut mailbox);
    assert_eq!(monitor.phase(), ButtonPhase::ReleaseGuard);
    assert_eq!(mailbox.try_take(), Some(Action::TurnOff));
}

#[test]
fn consumed_actions_are_applied_in_order() {
    let mut monitor = ButtonMonitor::new();
    let mut bridge = bridge();
    let mut mailbox = ActionMailbox::new();
    let mut controller = ActuatorController::new();
    on_remote_write(&mut bridge, true, &mut mailbox);
    assert_eq!(run_consumer(&mut controller, &mut mailbox), Some(Action::TurnOn));
    assert_eq!(controller.line(), Level::Low);
    on_button_event(&mut monitor, ButtonEvent::FallingEdge, &mut mailbox);
    on_button_event(&mut monitor, ButtonEvent::Elapsed { pin_low: true }, &mut mailbox);
    assert_eq!(run_consumer(&mut controller, &mut mailbox), Some(Action::Toggle));
    assert_eq!(controller.line(), Level::High);
    assert!(bridge.server().control().triac_control_get());
}
