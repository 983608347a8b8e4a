use nordic_switch::action::Action;
use nordic_switch::action::ActuatorState;
use nordic_switch::action::Level;
use nordic_switch::actuator::drive;
use nordic_switch::actuator::ActuatorController;

#[test]
fn line_starts_high_and_load_off() {
    let controller = ActuatorController::new();
    assert_eq!(controller.line(), Level::High);
    assert_eq!(controller.state(), ActuatorState::Off);
}

#[test]
fn turn_on_drives_the_line_low() {
    assert_eq!(drive(Level::High, Action::TurnOn), Level::Low);
    assert_eq!(drive(Level::Low, Action::TurnOn), Level::Low);
}

#[test]
fn turn_off_drives_the_line_high() {
    assert_eq!(drive(Level::Low, Action::TurnOff), Level::High);
    assert_eq!(drive(Level::High, Action::TurnOff), Level::High);
}

#[test]
fn toggle_inverts_the_line() {
    assert_eq!(drive(Level::High, Action::Toggle), Level::Low);
    assert_eq!(drive(Level::Low, Action::Toggle), Level::High);
}

#[test]
fn low_line_means_on() {
    assert_eq!(Level::Low.state(), ActuatorState::On);
    assert_eq!(Level::High.state(), ActuatorState::Off);
    assert_eq!(Level::Low.invert(), Level::High);
    assert_eq!(Level::High.invert(), Level::Low);
}

#[test]
fn controller_follows_each_action() {
    let mut controller = ActuatorController::new();
    assert_eq!(controller.apply(Action::Toggle), Level::Low);
    assert_eq!(controller.state(), ActuatorState::On);
    assert_eq!(controller.apply(Action::TurnOn), Level::Low);
    assert_eq!(controller.apply(Action::Toggle), Level::High);
    assert_eq!(controller.apply(Action::TurnOff), Level::High);
    assert_eq!(controller.apply(Action::TurnOn), Level::Low);
    assert_eq!(controller.line(), Level::Low);
    assert_eq!(controller.state(), ActuatorState::On);
}

#[test]
fn toggles_invert_once_each() {
    let mut controller = ActuatorController::new();
    for round in 1..=7 {
        controller.apply(Action::Toggle);
        let expected = if round % 2 == 1 { Level::Low } else { Level::High };
        assert_eq!(controller.line(), expected);
    }
}
