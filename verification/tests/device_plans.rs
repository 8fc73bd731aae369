use samwise::agent::AgentStatus;
use samwise::device::{
    action_label, await_deadline, await_step, deadline_exceeded, plan_action, poll_state,
    state_satisfies, Action, AwaitEvent, AwaitOutcome, Plan, State, StateCond, Step, Transport,
    ACTION_TIMEOUT_MS, PING_INTERVAL_MS,
};
use samwise::id::TargetId;

fn t(name: &str) -> TargetId {
    TargetId::new(name.to_string()).unwrap()
}

#[test]
fn run_on_matching_active_target_is_noop() {
    let p = plan_action(&Action::Run(t("ubuntu")), &AgentStatus::Active(t("ubuntu")));
    assert_eq!(
        p,
        Plan {
            config_write: None,
            transport: None,
            awaited: None,
        }
    );
    assert!(p.steps().is_empty());
}

#[test]
fn run_on_other_active_target_reconfigures_and_reboots() {
    let p = plan_action(&Action::Run(t("ubuntu")), &AgentStatus::Active(t("windows")));
    assert_eq!(p.config_write, Some(t("ubuntu")));
    assert_eq!(p.transport, Some(Transport::RebootRpc));
    assert_eq!(p.awaited, Some(StateCond::RunningTarget(t("ubuntu"))));
    let steps = p.steps();
    assert_eq!(
        steps,
        vec![
            Step::WriteConfig(t("ubuntu")),
            Step::Issue(Transport::RebootRpc),
            Step::Await(StateCond::RunningTarget(t("ubuntu"))),
        ]
    );
}

#[test]
fn run_on_inactive_device_configures_and_wakes() {
    let p = plan_action(&Action::Run(t("ubuntu")), &AgentStatus::Inactive);
    assert_eq!(p.config_write, Some(t("ubuntu")));
    assert_eq!(p.transport, Some(Transport::Wake));
    assert_eq!(p.awaited, Some(StateCond::RunningTarget(t("ubuntu"))));
}

#[test]
fn config_write_always_precedes_transport_and_await() {
    let actions = [
        Action::Run(t("a")),
        Action::Reboot,
        Action::Suspend,
        Action::ShutDown,
    ];
    let statuses = [AgentStatus::Active(t("b")), AgentStatus::Inactive];
    for a in &actions {
        for s in &statuses {
            let steps = plan_action(a, s).steps();
            let write = steps.iter().position(|x| matches!(x, Step::WriteConfig(_)));
            let issue = steps.iter().position(|x| matches!(x, Step::Issue(_)));
            let awaited = steps.iter().position(|x| matches!(x, Step::Await(_)));
            if let (Some(w), Some(i)) = (write, issue) {
                assert!(w < i);
            }
            if let (Some(i), Some(g)) = (issue, awaited) {
                assert!(i < g);
            }
        }
    }
}

#[test]
fn reboot_on_active_reawaits_same_target() {
    let p = plan_action(&Action::Reboot, &AgentStatus::Active(t("windows")));
    assert_eq!(p.config_write, None);
    assert_eq!(p.transport, Some(Transport::RebootRpc));
    assert_eq!(p.awaited, Some(StateCond::RunningTarget(t("windows"))));
}

#[test]
fn reboot_on_inactive_wakes_and_awaits_any_target() {
    let p = plan_action(&Action::Reboot, &AgentStatus::Inactive);
    assert_eq!(p.config_write, None);
    assert_eq!(p.transport, Some(Transport::Wake));
    assert_eq!(p.awaited, Some(StateCond::AnyRunning));
}

#[test]
fn suspend_and_shutdown_on_active_await_off() {
    let p = plan_action(&Action::Suspend, &AgentStatus::Active(t("x")));
    assert_eq!(p.transport, Some(Transport::SuspendRpc));
    assert_eq!(p.awaited, Some(StateCond::Off));
    let p = plan_action(&Action::ShutDown, &AgentStatus::Active(t("x")));
    assert_eq!(p.transport, Some(Transport::ShutDownRpc));
    assert_eq!(p.awaited, Some(StateCond::Off));
}

#[test]
fn suspend_and_shutdown_on_inactive_are_noops() {
    for a in [Action::Suspend, Action::ShutDown] {
        let p = plan_action(&a, &AgentStatus::Inactive);
        assert_eq!(p.config_write, None);
        assert_eq!(p.transport, None);
        assert_eq!(p.awaited, None);
    }
}

#[test]
fn poller_maps_status_and_never_reports_unknown() {
    assert_eq!(poll_state(&AgentStatus::Active(t("ubuntu"))), State::Running(t("ubuntu")));
    assert_eq!(poll_state(&AgentStatus::Inactive), State::Off);
}

#[test]
fn state_conditions_match_exactly() {
    let running = State::Running(t("ubuntu"));
    assert!(state_satisfies(&running, &StateCond::RunningTarget(t("ubuntu"))));
    assert!(!state_satisfies(&running, &StateCond::RunningTarget(t("windows"))));
    assert!(state_satisfies(&running, &StateCond::AnyRunning));
    assert!(!state_satisfies(&running, &StateCond::Off));
    assert!(state_satisfies(&State::Off, &StateCond::Off));
    assert!(!state_satisfies(&State::Unknown, &StateCond::AnyRunning));
    assert!(!state_satisfies(&State::Unknown, &StateCond::Off));
}

#[test]
fn await_steps_settle_or_keep_waiting() {
    let cond = StateCond::RunningTarget(t("ubuntu"));
    assert_eq!(
        await_step(&cond, &AwaitEvent::Observed(State::Running(t("ubuntu")))),
        AwaitOutcome::Satisfied
    );
    assert_eq!(
        await_step(&cond, &AwaitEvent::Observed(State::Off)),
        AwaitOutcome::KeepWaiting
    );
    assert_eq!(await_step(&cond, &AwaitEvent::Closed), AwaitOutcome::ChannelClosed);
    assert_eq!(
        await_step(&cond, &AwaitEvent::DeadlineExceeded),
        AwaitOutcome::TimedOut
    );
}

#[test]
fn deadline_is_five_minutes_from_start() {
    assert_eq!(ACTION_TIMEOUT_MS, 300_000);
    assert_eq!(PING_INTERVAL_MS, 5_000);
    let d = await_deadline(1_000);
    assert_eq!(d, 301_000);
    assert!(!deadline_exceeded(300_999, d));
    assert!(deadline_exceeded(301_000, d));
    assert!(deadline_exceeded(301_001, d));
}

#[test]
fn action_labels_match_display_form() {
    assert_eq!(action_label(&Action::Reboot), "reboot");
    assert_eq!(action_label(&Action::Suspend), "suspend");
    assert_eq!(action_label(&Action::ShutDown), "shut down");
    assert_eq!(action_label(&Action::Run(t("ubuntu"))), "run ubuntu");
}
