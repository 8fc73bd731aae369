//! Samwise: multi-boot power control for a small fleet of machines.
//!
//! The controller rewrites a TFTP-served bootloader configuration file,
//! wakes machines with raw Ethernet Wake-on-LAN frames, and asks a small
//! per-device agent daemon to reboot, suspend or shut down. This crate
//! holds the decision logic of that system: identifier validation, the
//! magic-packet layout, the per-device action state machine, the channel
//! cores the device tasks share, the configuration model, and the HTTP
//! surface's routing and response bodies. The runtime around it — the
//! sockets, the timers, the RPC transport — only carries these
//! decisions out.

pub mod agent;
pub mod channel;
pub mod config;
pub mod daemon;
pub mod device;
pub mod errors;
pub mod grub;
pub mod http;
pub mod id;
pub mod mac;
pub mod strutil;
pub mod wol;
