use nordic_switch::action::Action;
use nordic_switch::mailbox::ActionMailbox;

#[test]
fn new_mailbox_is_empty() {
    let mut mailbox = ActionMailbox::new();
    assert!(!mailbox.signaled());
    assert_eq!(mailbox.try_take(), None);
}

#[test]
fn take_consumes_the_pending_action() {
    let mut mailbox = ActionMailbox::new();
    mailbox.signal(Action::Toggle);
    assert!(mailbox.signaled());
    assert_eq!(mailbox.try_take(), Some(Action::Toggle));
    assert!(!mailbox.signaled());
    assert_eq!(mailbox.try_take(), None);
}

#[test]
fn two_writes_collapse_to_the_second() {
    let mut mailbox = ActionMailbox::new();
    mailbox.signal(Action::TurnOn);
    mailbox.signal(Action::TurnOff);
    assert_eq!(mailbox.try_take(), Some(Action::TurnOff));
    assert_eq!(mailbox.try_take(), None);
}

#[test]
fn many_writes_collapse_to_the_last() {
    let mut mailbox = ActionMailbox::new();
    for action in [Action::Toggle, Action::TurnOff, Action::Toggle, Action::TurnOn] {
        mailbox.signal(action);
    }
    assert_eq!(mailbox.try_take(), Some(Action::TurnOn));
    assert_eq!(mailbox.try_take(), None);
}

#[test]
fn signaled_leaves_the_action_in_place() {
    let mut mailbox = ActionMailbox::new();
    mailbox.signal(Action::TurnOn);
    assert!(mailbox.signaled());
    assert!(mailbox.signaled());
    assert_eq!(mailbox.try_take(), Some(Action::TurnOn));
}
