//! The error kinds the controller reports, their texts, and how the
//! HTTP surface classifies them.

use vstd::prelude::*;
use crate::id::DeviceId;
use crate::id::TargetId;
use crate::wol::WakeError;

verus! {

/// Everything that can go wrong between accepting a request and
/// finishing an action.
#[derive(Debug, PartialEq, Eq)]
pub enum Error {
    /// The configuration could not be used: malformed value, unknown
    /// device referenced, ill-formed identifier. Fatal at startup.
    ConfigInvalid(String),
    /// The device's action queue already holds a command.
    DeviceBusy(DeviceId),
    /// The requested device is not configured.
    UnknownDevice(DeviceId),
    /// The requested target is not in the device's target map.
    UnknownTarget(TargetId),
    /// A reboot, shut-down or suspend call to the agent failed.
    AgentRpcFailed(String),
    /// Sending the Wake-on-LAN frame failed.
    WakeFailed(WakeError),
    /// The bootloader configuration file could not be opened or written.
    ConfigWriteFailed(String),
    /// The awaited state did not appear before the deadline.
    Timeout,
    /// The state channel closed while a state was awaited.
    StateChannelClosed,
}

/// The text of a wake failure.
pub open spec fn wake_error_message(e: WakeError) -> Seq<char> {
    match e {
        WakeError::NoSuchInterface(n) => "No such network interface: "@ + n@,
        WakeError::NoSourceMac(n) => "Network interface "@ + n@ + " does not have a MAC address"@,
        WakeError::OpenFailed(d) => "Could not create datalink channel: "@ + d@,
        WakeError::SendFailed(dest) => "Sending magic packet to "@ + dest@ + " failed"@,
    }
}

/// The text of an error, as logs and HTTP replies carry it. The kinds
/// that wrap a report pass it through unchanged.
pub open spec fn error_message(e: Error) -> Seq<char> {
    match e {
        Error::ConfigInvalid(m) => m@,
        Error::DeviceBusy(id) => "device "@ + id@ + " is busy"@,
        Error::UnknownDevice(id) => "no such device: "@ + id@,
        Error::UnknownTarget(t) => "No such target `"@ + t@ + "`"@,
        Error::AgentRpcFailed(m) => m@,
        Error::WakeFailed(w) => wake_error_message(w),
        Error::ConfigWriteFailed(m) => m@,
        Error::Timeout => "Timed out waiting for device to reach desired state"@,
        Error::StateChannelClosed => "State channel closed"@,
    }
}

impl WakeError {
    /// Renders the text of this wake failure.
    pub fn message(&self) -> (r: String)
        ensures
            r@ == wake_error_message(*self),
    {
        match self {
            WakeError::NoSuchInterface(n) => {
                let mut s = String::from_str("No such network interface: ");
                s.append(n.as_str());
                s
            },
            WakeError::NoSourceMac(n) => {
                let mut s = String::from_str("Network interface ");
                s.append(n.as_str());
                s.append(" does not have a MAC address");
                s
            },
            WakeError::OpenFailed(d) => {
                let mut s = String::from_str("Could not create datalink channel: ");
                s.append(d.as_str());
                s
            },
            WakeError::SendFailed(dest) => {
                let mut s = String::from_str("Sending magic packet to ");
                s.append(dest.as_str());
                s.append(" failed");
                s
            },
        }
    }
}

impl Error {
    /// Renders the text of this error.
    pub fn message(&self) -> (r: String)
        ensures
            r@ == error_message(*self),
    {
        match self {
            Error::ConfigInvalid(m) => m.clone(),
            Error::DeviceBusy(id) => {
                let mut s = String::from_str("device ");
                s.append(id.as_string().as_str());
                s.append(" is busy");
                s
            },
            Error::UnknownDevice(id) => {
                let mut s = String::from_str("no such device: ");
                s.append(id.as_string().as_str());
                s
            },
            Error::UnknownTarget(t) => {
                let mut s = String::from_str("No such target `");
                s.append(t.as_string().as_str());
                s.append("`");
                s
            },
            Error::AgentRpcFailed(m) => m.clone(),
            Error::WakeFailed(w) => w.message(),
            Error::ConfigWriteFailed(m) => m.clone(),
            Error::Timeout => String::from_str("Timed out waiting for device to reach desired state"),
            Error::StateChannelClosed => String::from_str("State channel closed"),
        }
    }

    /// The HTTP status the surface answers with when this error reaches
    /// a caller: 404 for an unknown device, 500 for a configuration
    /// fault, and 503 for every failure a retry might cure.
    pub fn http_status(&self) -> (r: u16)
        ensures
            r == 404 <==> self is UnknownDevice,
            r == 500 <==> self is ConfigInvalid,
            self !is UnknownDevice && self !is ConfigInvalid ==> r == 503,
    {
        match self {
            Error::UnknownDevice(_) => 404,
            Error::ConfigInvalid(_) => 500,
            _ => 503,
        }
    }
}

} // verus!
