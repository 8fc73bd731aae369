//! The controller's view of one device agent.

use vstd::prelude::*;
use crate::id::TargetId;
use crate::id::valid_target_id;

verus! {

/// What pinging an agent tells the controller.
#[derive(Debug, PartialEq, Eq)]
pub enum AgentStatus {
    /// The agent answered and reported the target it is running.
    Active(TargetId),
    /// The agent did not answer, or answered uselessly. Conflates
    /// "off", "suspended" and "unreachable" by design.
    Inactive,
}

impl Clone for AgentStatus {
    fn clone(&self) -> (r: Self)
        ensures
            r == *self,
    {
        match self {
            AgentStatus::Active(t) => AgentStatus::Active(t.clone()),
            AgentStatus::Inactive => AgentStatus::Inactive,
        }
    }
}

/// Reads a ping reply as a status. The reply is the reported target's
/// name when the call came back OK, and nothing on any failure. Every
/// failure, and every reply without a usable target name, is `Inactive`:
/// a device that does not answer is not running as far as the controller
/// is concerned.
pub fn interpret_ping_reply(reply: Option<String>) -> (r: AgentStatus)
    ensures
        match reply {
            Option::None => r is Inactive,
            Option::Some(name) => {
                if valid_target_id(name@) {
                    r matches AgentStatus::Active(t) && t@ == name@
                } else {
                    r is Inactive
                }
            },
        },
{
    match reply {
        Option::None => AgentStatus::Inactive,
        Option::Some(name) => match TargetId::new(name) {
            Option::Some(t) => AgentStatus::Active(t),
            Option::None => AgentStatus::Inactive,
        },
    }
}

} // verus!
