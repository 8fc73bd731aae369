//! The agent daemon's logic: its configuration, the platform defaults
//! for the power commands, and what each RPC does.
//!
//! The daemon serves four calls. `Ping` reports the target it was
//! configured to answer with; the power calls start a configured
//! command and do not wait for it — the command usually takes the
//! operating system, and the daemon with it, down.

use vstd::prelude::*;

verus! {

/// What the agent daemon is started with.
#[derive(Debug)]
pub struct AgentConfiguration {
    /// The address the RPC server listens on.
    pub listen_address: String,
    /// The target name every ping reply reports.
    pub target_name: String,
    /// The command that reboots this machine, if any.
    pub reboot_command: Option<Vec<String>>,
    /// The command that shuts this machine down, if any.
    pub shutdown_command: Option<Vec<String>>,
    /// The command that suspends this machine, if any.
    pub suspend_command: Option<Vec<String>>,
}

/// The platforms the daemon knows defaults for.
#[derive(Clone, Copy, Debug, PartialEq, Eq, Structural)]
pub enum Platform {
    Linux,
    MacOs,
    Windows,
    Other,
}

/// The default reboot command of each platform.
pub open spec fn default_reboot_commands(p: Platform) -> Option<Seq<Seq<char>>> {
    match p {
        Platform::Linux => Some(seq!["systemctl"@, "reboot"@]),
        Platform::MacOs => Some(
            seq!["osascript"@, "-e"@, "tell app \"System Events\" to restart"@],
        ),
        Platform::Windows => Some(seq!["shutdown"@, "/r"@]),
        Platform::Other => None,
    }
}

/// The default shutdown command of each platform.
pub open spec fn default_shutdown_commands(p: Platform) -> Option<Seq<Seq<char>>> {
    match p {
        Platform::Linux => Some(seq!["systemctl"@, "poweroff"@]),
        Platform::MacOs => Some(
            seq!["osascript"@, "-e"@, "tell app \"System Events\" to shut down"@],
        ),
        Platform::Windows => Some(seq!["shutdown"@, "/s"@]),
        Platform::Other => None,
    }
}

/// The default suspend command of each platform. Windows has none:
/// suspending there depends on hibernation settings and helpers.
pub open spec fn default_suspend_commands(p: Platform) -> Option<Seq<Seq<char>>> {
    match p {
        Platform::Linux => Some(seq!["systemctl"@, "suspend"@]),
        Platform::MacOs => Some(seq!["pmset"@, "sleepnow"@]),
        Platform::Windows => None,
        Platform::Other => None,
    }
}

fn two_words(a: &str, b: &str) -> (r: Vec<String>)
    ensures
        r.deep_view() =~= seq![a@, b@],
{
    let mut v: Vec<String> = Vec::new();
    v.push(String::from_str(a));
    v.push(String::from_str(b));
    v
}

fn three_words(a: &str, b: &str, c: &str) -> (r: Vec<String>)
    ensures
        r.deep_view() =~= seq![a@, b@, c@],
{
    let mut v: Vec<String> = Vec::new();
    v.push(String::from_str(a));
    v.push(String::from_str(b));
    v.push(String::from_str(c));
    v
}

/// The default reboot command for a platform.
pub fn default_reboot_command(p: Platform) -> (r: Option<Vec<String>>)
    ensures
        match r {
            Some(v) => default_reboot_commands(p) matches Some(s) && v.deep_view() == s,
            None => default_reboot_commands(p) is None,
        },
{
    match p {
        Platform::Linux => Some(two_words("systemctl", "reboot")),
        Platform::MacOs => Some(
            three_words("osascript", "-e", "tell app \"System Events\" to restart"),
        ),
        Platform::Windows => Some(two_words("shutdown", "/r")),
        Platform::Other => None,
    }
}

/// The default shutdown command for a platform.
pub fn default_shutdown_command(p: Platform) -> (r: Option<Vec<String>>)
    ensures
        match r {
            Some(v) => default_shutdown_commands(p) matches Some(s) && v.deep_view() == s,
            None => default_shutdown_commands(p) is None,
        },
{
    match p {
        Platform::Linux => Some(two_words("systemctl", "poweroff")),
        Platform::MacOs => Some(
            three_words("osascript", "-e", "tell app \"System Events\" to shut down"),
        ),
        Platform::Windows => Some(two_words("shutdown", "/s")),
        Platform::Other => None,
    }
}

/// The default suspend command for a platform.
pub fn default_suspend_command(p: Platform) -> (r: Option<Vec<String>>)
    ensures
        match r {
            Some(v) => default_suspend_commands(p) matches Some(s) && v.deep_view() == s,
            None => default_suspend_commands(p) is None,
        },
{
    match p {
        Platform::Linux => Some(two_words("systemctl", "suspend")),
        Platform::MacOs => Some(two_words("pmset", "sleepnow")),
        Platform::Windows => None,
        Platform::Other => None,
    }
}

/// The four calls the daemon serves.
#[derive(Clone, Copy, Debug, PartialEq, Eq, Structural)]
pub enum RpcMethod {
    Ping,
    Reboot,
    ShutDown,
    Suspend,
}

/// What serving one call amounts to.
#[derive(Debug)]
pub enum RpcPlan {
    /// Answer the ping with this target name.
    Reply(String),
    /// Start this command and answer OK without waiting for it.
    Spawn(Vec<String>),
    /// Answer that the call is not implemented here: no command, or an
    /// empty one, is configured for it.
    Unimplemented,
}

/// A power call's plan for its configured command: spawn it when it
/// exists and has at least a program name, refuse otherwise.
pub open spec fn command_plan_ok(cmd: Option<Vec<String>>, r: RpcPlan) -> bool {
    match cmd {
        Some(v) => {
            if v@.len() > 0 {
                r matches RpcPlan::Spawn(w) && w@ == v@
            } else {
                r is Unimplemented
            }
        },
        None => r is Unimplemented,
    }
}

fn clone_command(v: &Vec<String>) -> (r: Vec<String>)
    ensures
        r@ == v@,
{
    let n = v.len();
    let mut out: Vec<String> = Vec::new();
    let mut i: usize = 0;
    while i < n
        invariant
            n == v@.len(),
            i <= n,
            out@.len() == i,
            forall|j: int| 0 <= j < i ==> out@[j] == v@[j],
        decreases n - i,
    {
        out.push(v[i].clone());
        i += 1;
    }
    proof {
        assert(out@ =~= v@);
    }
    out
}

/// Decides what a call does: a ping is answered with the configured
/// target name; a power call starts its configured command, or reports
/// itself unimplemented when none is configured.
pub fn dispatch(config: &AgentConfiguration, method: RpcMethod) -> (r: RpcPlan)
    ensures
        method is Ping ==> (r matches RpcPlan::Reply(t) && t == config.target_name),
        method is Reboot ==> command_plan_ok(config.reboot_command, r),
        method is ShutDown ==> command_plan_ok(config.shutdown_command, r),
        method is Suspend ==> command_plan_ok(config.suspend_command, r),
{
    match method {
        RpcMethod::Ping => RpcPlan::Reply(config.target_name.clone()),
        RpcMethod::Reboot => match &config.reboot_command {
            Some(v) => {
                if v.len() > 0 {
                    RpcPlan::Spawn(clone_command(v))
                } else {
                    RpcPlan::Unimplemented
                }
            },
            None => RpcPlan::Unimplemented,
        },
        RpcMethod::ShutDown => match &config.shutdown_command {
            Some(v) => {
                if v.len() > 0 {
                    RpcPlan::Spawn(clone_command(v))
                } else {
                    RpcPlan::Unimplemented
                }
            },
            None => RpcPlan::Unimplemented,
        },
        RpcMethod::Suspend => match &config.suspend_command {
            Some(v) => {
                if v.len() > 0 {
                    RpcPlan::Spawn(clone_command(v))
                } else {
                    RpcPlan::Unimplemented
                }
            },
            None => RpcPlan::Unimplemented,
        },
    }
}

} // verus!
