//! The per-device action state machine.
//!
//! Two background tasks cooperate for each device: a poller that pings
//! the agent and publishes the observed state, and a handler that takes
//! one action at a time and drives the device toward it. Everything
//! those tasks decide is decided here, as functions from plain values
//! to plain values; the tasks themselves only carry the calls out.

use vstd::prelude::*;
use crate::agent::AgentStatus;
use crate::config::Configuration;
use crate::config::TargetConfiguration;
use crate::config::lookup_device;
use crate::errors::Error;
use crate::grub::grub_config_path;
use crate::id::DeviceId;
use crate::id::TargetId;
use crate::mac::Mac;

verus! {

/// Milliseconds between pings of the agent by the state poller.
pub const PING_INTERVAL_MS: u64 = 5000;

/// Milliseconds an action waits for the desired state before giving up.
pub const ACTION_TIMEOUT_MS: u64 = 300000;

/// Observed state of a device.
#[derive(Debug, PartialEq, Eq)]
pub enum State {
    /// Nothing observed yet. Initial, and never published again once a
    /// real observation exists.
    Unknown,
    /// The agent answered; the device runs the named target.
    Running(TargetId),
    /// The agent did not answer: off, suspended, or unreachable.
    Off,
}

impl Clone for State {
    fn clone(&self) -> (r: Self)
        ensures
            r == *self,
    {
        match self {
            State::Unknown => State::Unknown,
            State::Running(t) => State::Running(t.clone()),
            State::Off => State::Off,
        }
    }
}

/// A command a device can be asked to carry out.
#[derive(Debug, PartialEq, Eq)]
pub enum Action {
    Reboot,
    Suspend,
    ShutDown,
    Run(TargetId),
}

impl Clone for Action {
    fn clone(&self) -> (r: Self)
        ensures
            r == *self,
    {
        match self {
            Action::Reboot => Action::Reboot,
            Action::Suspend => Action::Suspend,
            Action::ShutDown => Action::ShutDown,
            Action::Run(t) => Action::Run(t.clone()),
        }
    }
}

/// The display form of an action, as error messages and replies use it.
pub open spec fn action_label_spec(a: Action) -> Seq<char> {
    match a {
        Action::Reboot => "reboot"@,
        Action::Suspend => "suspend"@,
        Action::ShutDown => "shut down"@,
        Action::Run(t) => "run "@ + t@,
    }
}

/// Renders the display form of an action.
pub fn action_label(a: &Action) -> (r: String)
    ensures
        r@ == action_label_spec(*a),
{
    match a {
        Action::Reboot => String::from_str("reboot"),
        Action::Suspend => String::from_str("suspend"),
        Action::ShutDown => String::from_str("shut down"),
        Action::Run(t) => {
            let mut s = String::from_str("run ");
            s.append(t.as_string().as_str());
            s
        },
    }
}

/// How the poller reads an agent status: an answering agent is running
/// its reported target, a silent one is off.
pub open spec fn poll_state_spec(status: AgentStatus) -> State {
    match status {
        AgentStatus::Active(t) => State::Running(t),
        AgentStatus::Inactive => State::Off,
    }
}

/// Maps one ping result to the state the poller publishes. The result
/// is never `Unknown`: the poller cannot unlearn an observation.
pub fn poll_state(status: &AgentStatus) -> (s: State)
    ensures
        s == poll_state_spec(*status),
        !(s is Unknown),
{
    match status {
        AgentStatus::Active(t) => State::Running(t.clone()),
        AgentStatus::Inactive => State::Off,
    }
}

/// The transport command of a plan: how the device is physically nudged.
#[derive(Clone, Copy, Debug, PartialEq, Eq, Structural)]
pub enum Transport {
    /// Send a Wake-on-LAN magic packet.
    Wake,
    /// Call the agent's reboot RPC.
    RebootRpc,
    /// Call the agent's suspend RPC.
    SuspendRpc,
    /// Call the agent's shut-down RPC.
    ShutDownRpc,
}

/// The observed state an action waits for once its commands are out.
#[derive(Debug, PartialEq, Eq)]
pub enum StateCond {
    /// `Running` with exactly the given target.
    RunningTarget(TargetId),
    /// `Running`, whatever the target.
    AnyRunning,
    /// `Off`.
    Off,
}

impl Clone for StateCond {
    fn clone(&self) -> (r: Self)
        ensures
            r == *self,
    {
        match self {
            StateCond::RunningTarget(t) => StateCond::RunningTarget(t.clone()),
            StateCond::AnyRunning => StateCond::AnyRunning,
            StateCond::Off => StateCond::Off,
        }
    }
}

/// Whether a state satisfies an awaited condition.
pub open spec fn state_matches(s: State, c: StateCond) -> bool {
    match c {
        StateCond::RunningTarget(t) => s matches State::Running(r) && r@ == t@,
        StateCond::AnyRunning => s matches State::Running(_),
        StateCond::Off => s is Off,
    }
}

/// Tests a state against an awaited condition.
pub fn state_satisfies(s: &State, c: &StateCond) -> (r: bool)
    ensures
        r == state_matches(*s, *c),
{
    match c {
        StateCond::RunningTarget(t) => match s {
            State::Running(run) => run.as_string().eq(t.as_string()),
            _ => false,
        },
        StateCond::AnyRunning => match s {
            State::Running(_) => true,
            _ => false,
        },
        StateCond::Off => match s {
            State::Off => true,
            _ => false,
        },
    }
}

/// What handling one action amounts to, decided on a fresh ping. The
/// three parts are carried out in this order: the bootloader-config
/// write, then the transport command, then the await.
#[derive(Debug, PartialEq, Eq)]
pub struct Plan {
    /// Rewrite the device's bootloader configuration for this target.
    pub config_write: Option<TargetId>,
    /// Nudge the device over the network.
    pub transport: Option<Transport>,
    /// Wait for this observed state, up to the action timeout.
    pub awaited: Option<StateCond>,
}

/// The plan that does nothing at all.
pub open spec fn empty_plan() -> Plan {
    Plan { config_write: None, transport: None, awaited: None }
}

/// The handler's decision table. For each action and each fresh ping
/// result, exactly what is written, issued and awaited.
pub open spec fn plan_spec(a: Action, status: AgentStatus) -> Plan {
    match a {
        Action::Run(target) => match status {
            AgentStatus::Active(current) => {
                if current@ == target@ {
                    empty_plan()
                } else {
                    Plan {
                        config_write: Some(target),
                        transport: Some(Transport::RebootRpc),
                        awaited: Some(StateCond::RunningTarget(target)),
                    }
                }
            },
            AgentStatus::Inactive => Plan {
                config_write: Some(target),
                transport: Some(Transport::Wake),
                awaited: Some(StateCond::RunningTarget(target)),
            },
        },
        Action::Reboot => match status {
            AgentStatus::Active(current) => Plan {
                config_write: None,
                transport: Some(Transport::RebootRpc),
                awaited: Some(StateCond::RunningTarget(current)),
            },
            AgentStatus::Inactive => Plan {
                config_write: None,
                transport: Some(Transport::Wake),
                awaited: Some(StateCond::AnyRunning),
            },
        },
        Action::Suspend => match status {
            AgentStatus::Active(_) => Plan {
                config_write: None,
                transport: Some(Transport::SuspendRpc),
                awaited: Some(StateCond::Off),
            },
            AgentStatus::Inactive => empty_plan(),
        },
        Action::ShutDown => match status {
            AgentStatus::Active(_) => Plan {
                config_write: None,
                transport: Some(Transport::ShutDownRpc),
                awaited: Some(StateCond::Off),
            },
            AgentStatus::Inactive => empty_plan(),
        },
    }
}

/// Decides what an action does, given what a fresh ping of the agent
/// just reported.
pub fn plan_action(action: &Action, status: &AgentStatus) -> (p: Plan)
    ensures
        p == plan_spec(*action, *status),
{
    match action {
        Action::Run(target) => match status {
            AgentStatus::Active(current) => {
                if current.as_string().eq(target.as_string()) {
                    Plan { config_write: None, transport: None, awaited: None }
                } else {
                    Plan {
                        config_write: Some(target.clone()),
                        transport: Some(Transport::RebootRpc),
                        awaited: Some(StateCond::RunningTarget(target.clone())),
                    }
                }
            },
            AgentStatus::Inactive => Plan {
                config_write: Some(target.clone()),
                transport: Some(Transport::Wake),
                awaited: Some(StateCond::RunningTarget(target.clone())),
            },
        },
        Action::Reboot => match status {
            AgentStatus::Active(current) => Plan {
                config_write: None,
                transport: Some(Transport::RebootRpc),
                awaited: Some(StateCond::RunningTarget(current.clone())),
            },
            AgentStatus::Inactive => Plan {
                config_write: None,
                transport: Some(Transport::Wake),
                awaited: Some(StateCond::AnyRunning),
            },
        },
        Action::Suspend => match status {
            AgentStatus::Active(_) => Plan {
                config_write: None,
                transport: Some(Transport::SuspendRpc),
                awaited: Some(StateCond::Off),
            },
            AgentStatus::Inactive => Plan { config_write: None, transport: None, awaited: None },
        },
        Action::ShutDown => match status {
            AgentStatus::Active(_) => Plan {
                config_write: None,
                transport: Some(Transport::ShutDownRpc),
                awaited: Some(StateCond::Off),
            },
            AgentStatus::Inactive => Plan { config_write: None, transport: None, awaited: None },
        },
    }
}

/// One step of carrying a plan out.
#[derive(Debug, PartialEq, Eq)]
pub enum Step {
    /// Rewrite the bootloader configuration for this target.
    WriteConfig(TargetId),
    /// Issue this transport command.
    Issue(Transport),
    /// Wait for this observed state.
    Await(StateCond),
}

impl Clone for Step {
    fn clone(&self) -> (r: Self)
        ensures
            r == *self,
    {
        match self {
            Step::WriteConfig(t) => Step::WriteConfig(t.clone()),
            Step::Issue(tr) => Step::Issue(*tr),
            Step::Await(c) => Step::Await(c.clone()),
        }
    }
}

/// A plan's steps, in the order they are carried out.
pub open spec fn plan_steps(p: Plan) -> Seq<Step> {
    (match p.config_write {
        Some(t) => seq![Step::WriteConfig(t)],
        None => seq![],
    }) + (match p.transport {
        Some(tr) => seq![Step::Issue(tr)],
        None => seq![],
    }) + (match p.awaited {
        Some(c) => seq![Step::Await(c)],
        None => seq![],
    })
}

impl Plan {
    /// The steps of this plan, in execution order.
    pub fn steps(&self) -> (r: Vec<Step>)
        ensures
            r@ == plan_steps(*self),
    {
        let mut v: Vec<Step> = Vec::new();
        match &self.config_write {
            Some(t) => v.push(Step::WriteConfig(t.clone())),
            None => (),
        }
        match &self.transport {
            Some(tr) => v.push(Step::Issue(*tr)),
            None => (),
        }
        match &self.awaited {
            Some(c) => v.push(Step::Await(c.clone())),
            None => (),
        }
        proof {
            assert(v@ =~= plan_steps(*self));
        }
        v
    }
}

/// Law: in every plan, the bootloader-config write comes before any
/// transport command.
pub proof fn lemma_config_write_precedes_transport(p: Plan)
    ensures
        forall|i: int, j: int|
            0 <= i < plan_steps(p).len() && 0 <= j < plan_steps(p).len() && plan_steps(
                p,
            )[i] is WriteConfig && plan_steps(p)[j] is Issue ==> i < j,
{
}

/// Law: in every plan, the transport command is issued before the
/// observed state is awaited.
pub proof fn lemma_transport_precedes_await(p: Plan)
    ensures
        forall|i: int, j: int|
            0 <= i < plan_steps(p).len() && 0 <= j < plan_steps(p).len() && plan_steps(
                p,
            )[i] is Issue && plan_steps(p)[j] is Await ==> i < j,
{
}

/// Law: whenever a run plan issues any transport command, it first
/// writes the bootloader configuration for the requested target, and
/// then awaits that target running.
pub proof fn lemma_run_writes_config_first(target: TargetId, status: AgentStatus)
    ensures
        ({
            let p = plan_spec(Action::Run(target), status);
            p.transport is Some ==> p.config_write == Some(target) && p.awaited == Some(
                StateCond::RunningTarget(target),
            )
        }),
{
}

/// Law: asking to run what the device already runs is a no-op — no
/// config write, no transport, nothing awaited.
pub proof fn lemma_run_already_active_is_noop(target: TargetId, current: TargetId)
    requires
        current@ == target@,
    ensures
        plan_spec(Action::Run(target), AgentStatus::Active(current)) == empty_plan(),
{
}

/// Law: suspending or shutting down a device that is already inactive
/// is a no-op.
pub proof fn lemma_power_down_inactive_is_noop()
    ensures
        plan_spec(Action::Suspend, AgentStatus::Inactive) == empty_plan(),
        plan_spec(Action::ShutDown, AgentStatus::Inactive) == empty_plan(),
{
}

/// What the await loop hears while it waits.
#[derive(Debug, PartialEq, Eq)]
pub enum AwaitEvent {
    /// The state channel delivered an observation.
    Observed(State),
    /// The state channel closed: no further observation will come.
    Closed,
    /// The action deadline passed.
    DeadlineExceeded,
}

/// What the await loop does next.
#[derive(Clone, Copy, Debug, PartialEq, Eq, Structural)]
pub enum AwaitOutcome {
    /// The awaited state was observed; the action is done.
    Satisfied,
    /// Nothing decisive yet; keep waiting.
    KeepWaiting,
    /// The channel closed; report `StateChannelClosed`.
    ChannelClosed,
    /// The deadline passed; report `Timeout`.
    TimedOut,
}

/// The await loop's decision table.
pub open spec fn await_step_spec(cond: StateCond, event: AwaitEvent) -> AwaitOutcome {
    match event {
        AwaitEvent::Observed(s) => {
            if state_matches(s, cond) {
                AwaitOutcome::Satisfied
            } else {
                AwaitOutcome::KeepWaiting
            }
        },
        AwaitEvent::Closed => AwaitOutcome::ChannelClosed,
        AwaitEvent::DeadlineExceeded => AwaitOutcome::TimedOut,
    }
}

/// Decides one round of the await loop: an observation either settles
/// the wait or keeps it; a closed channel and a passed deadline each
/// end it with their own verdict.
pub fn await_step(cond: &StateCond, event: &AwaitEvent) -> (o: AwaitOutcome)
    ensures
        o == await_step_spec(*cond, *event),
{
    match event {
        AwaitEvent::Observed(s) => {
            if state_satisfies(s, cond) {
                AwaitOutcome::Satisfied
            } else {
                AwaitOutcome::KeepWaiting
            }
        },
        AwaitEvent::Closed => AwaitOutcome::ChannelClosed,
        AwaitEvent::DeadlineExceeded => AwaitOutcome::TimedOut,
    }
}

/// Everything a device's two background tasks need, derived once from
/// the configuration when the device starts.
#[derive(Debug)]
pub struct DeviceParams {
    /// URI of the device's agent service.
    pub agent_uri: String,
    /// The device's hardware address, for Wake-on-LAN.
    pub mac_address: Mac,
    /// The interface to wake the device on: its own, or the default.
    pub interface: String,
    /// Full path of the device's bootloader config file.
    pub grub_path: String,
    /// The device's target map.
    pub targets: Vec<(TargetId, TargetConfiguration)>,
}

/// Derives a device's task parameters from the configuration: the
/// interface falls back to the default, the bootloader path is the
/// configured relative path under the TFTP directory, and a device
/// that is not configured is a configuration fault.
pub fn device_params(config: &Configuration, id: &DeviceId) -> (r: Result<DeviceParams, Error>)
    ensures
        match lookup_device(config.devices@, id@) {
            None => r matches Err(e) && e matches Error::ConfigInvalid(m)
                && m@ == "Missing configuration for "@ + id@,
            Some(dc) => r matches Ok(p) && p.agent_uri@ == dc.agent@ && p.mac_address
                == dc.mac_address && p.interface@ == (match dc.interface {
                Some(s) => s@,
                None => config.default_interface@,
            }) && p.grub_path@ == config.tftp_directory@ + "/"@ + dc.grub_config@ && p.targets@
                =~= dc.targets@,
        },
{
    let found = config.device_config(id);
    match found {
        None => {
            let mut m = String::from_str("Missing configuration for ");
            m.append(id.as_string().as_str());
            Err(Error::ConfigInvalid(m))
        },
        Some(dc) => {
            let interface = match &dc.interface {
                Some(s) => s.clone(),
                None => config.default_interface.clone(),
            };
            let grub_path = grub_config_path(config.tftp_directory.as_str(), dc.grub_config.as_str());
            let n = dc.targets.len();
            let mut targets: Vec<(TargetId, TargetConfiguration)> = Vec::new();
            let mut i: usize = 0;
            while i < n
                invariant
                    n == dc.targets@.len(),
                    i <= n,
                    targets@.len() == i,
                    forall|j: int| 0 <= j < i ==> targets@[j] == dc.targets@[j],
                decreases n - i,
            {
                let pair = &dc.targets[i];
                targets.push((pair.0.clone(), pair.1.clone()));
                i += 1;
            }
            proof {
                assert(targets@ =~= dc.targets@);
            }
            Ok(DeviceParams {
                agent_uri: dc.agent.clone(),
                mac_address: dc.mac_address,
                interface,
                grub_path,
                targets,
            })
        },
    }
}

/// The moment an await gives up, measured from when it started.
pub fn await_deadline(start_ms: u64) -> (d: u64)
    requires
        start_ms <= u64::MAX - ACTION_TIMEOUT_MS,
    ensures
        d == start_ms + ACTION_TIMEOUT_MS,
{
    start_ms + ACTION_TIMEOUT_MS
}

/// Whether the deadline has passed.
pub fn deadline_exceeded(now_ms: u64, deadline_ms: u64) -> (r: bool)
    ensures
        r == (now_ms >= deadline_ms),
{
    now_ms >= deadline_ms
}

} // verus!

