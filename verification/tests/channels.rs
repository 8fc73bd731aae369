use samwise::channel::{ActionSlot, DeviceCore, Shutdown, StateChannel, SubmitError};
use samwise::device::{Action, State};
use samwise::id::TargetId;

fn t(name: &str) -> TargetId {
    TargetId::new(name.to_string()).unwrap()
}

#[test]
fn state_channel_retains_latest_value() {
    let mut ch = StateChannel::new();
    assert_eq!(ch.snapshot(), State::Unknown);
    assert_eq!(ch.generation(), 0);

    ch.publish(State::Running(t("ubuntu")));
    assert_eq!(ch.snapshot(), State::Running(t("ubuntu")));
    assert_eq!(ch.generation(), 1);

    ch.publish(State::Off);
    assert_eq!(ch.snapshot(), State::Off);
    assert_eq!(ch.generation(), 2);
}

#[test]
fn state_channel_generation_tells_readers_of_news() {
    let mut ch = StateChannel::new();
    let seen = ch.generation();
    assert!(!ch.has_newer(seen));
    ch.publish(State::Off);
    assert!(ch.has_newer(seen));
    let seen = ch.generation();
    assert!(!ch.has_newer(seen));
    // Republishing the same state still counts as a publication.
    ch.publish(State::Off);
    assert!(ch.has_newer(seen));
}

#[test]
fn action_slot_refuses_second_submission() {
    let mut slot = ActionSlot::new();
    assert_eq!(slot.try_send(Action::Reboot), Ok(()));
    assert_eq!(slot.try_send(Action::Suspend), Err(SubmitError::Busy));
    // The refused submission changed nothing: the first command is
    // still the one delivered.
    assert_eq!(slot.take(), Some(Action::Reboot));
    // Once drained, a submission is accepted again.
    assert_eq!(slot.try_send(Action::ShutDown), Ok(()));
    assert_eq!(slot.take(), Some(Action::ShutDown));
    assert_eq!(slot.take(), None);
}

#[test]
fn closed_slot_refuses_everything() {
    let mut slot = ActionSlot::new();
    slot.close();
    assert_eq!(slot.try_send(Action::Reboot), Err(SubmitError::Closed));
    assert!(slot.has_work());
    assert_eq!(slot.take(), None);
}

#[test]
fn device_core_serialises_actions() {
    let mut core = DeviceCore::new();
    assert_eq!(core.submit(Action::Reboot), Ok(()));
    assert_eq!(core.submit(Action::Suspend), Err(SubmitError::Busy));
    let picked = core.begin();
    assert_eq!(picked, Some(Action::Reboot));
    // While the handler works, the freed slot takes one new command.
    assert_eq!(core.submit(Action::Suspend), Ok(()));
    assert_eq!(core.submit(Action::ShutDown), Err(SubmitError::Busy));
    core.finish();
    assert_eq!(core.begin(), Some(Action::Suspend));
    core.finish();
    assert_eq!(core.begin(), None);
}

#[test]
fn shutdown_latch_sets_once_and_stays() {
    let mut s = Shutdown::new();
    assert!(!s.is_shutdown());
    assert!(!s.update(Some(false)));
    assert!(!s.is_shutdown());
    assert!(s.update(Some(true)));
    assert!(s.is_shutdown());
    // Once set, nothing resets it.
    assert!(s.update(Some(false)));
    assert!(s.is_shutdown());

    let mut gone = Shutdown::new();
    // A vanished sender also means shutdown.
    assert!(gone.update(None));
    assert!(gone.is_shutdown());
}
