//! End-to-end decision sequences, as a device task would drive them.

use samwise::agent::AgentStatus;
use samwise::config::{Configuration, RawConfiguration, RawDeviceEntry, RawTargetEntry};
use samwise::device::{device_params, plan_action, Action, StateCond, Transport};
use samwise::errors::Error;
use samwise::grub::configure_content;
use samwise::id::{DeviceId, TargetId};
use samwise::mac::Mac;
use samwise::wol::{build_magic_packet, select_source_mac, InterfaceInfo};

fn sample() -> Configuration {
    Configuration::load(&RawConfiguration {
        devices: vec![RawDeviceEntry {
            name: "d1".to_string(),
            agent: "http://d1.lan:8673".to_string(),
            interface: None,
            mac_address: "aa:bb:cc:dd:ee:ff".to_string(),
            grub_config: "d1/samwise.cfg".to_string(),
            targets: vec![
                RawTargetEntry {
                    name: "ubuntu".to_string(),
                    menu_entry: "Ubuntu 22.04".to_string(),
                },
                RawTargetEntry {
                    name: "windows".to_string(),
                    menu_entry: "Windows 10".to_string(),
                },
            ],
        }],
        tftp_directory: "/srv/tftp".to_string(),
        default_interface: "eth0".to_string(),
    })
    .unwrap()
}

#[test]
fn cold_boot_to_requested_target() {
    // The device is off; a run request arrives.
    let c = sample();
    let id = DeviceId::new("d1".to_string()).unwrap();
    let params = device_params(&c, &id).unwrap();
    assert_eq!(params.agent_uri, "http://d1.lan:8673");
    assert_eq!(params.interface, "eth0");
    assert_eq!(params.grub_path, "/srv/tftp/d1/samwise.cfg");
    assert_eq!(params.mac_address, Mac(0xaa, 0xbb, 0xcc, 0xdd, 0xee, 0xff));

    let ubuntu = TargetId::new("ubuntu".to_string()).unwrap();
    let plan = plan_action(&Action::Run(ubuntu.clone()), &AgentStatus::Inactive);

    // The bootloader file is rewritten for the requested target...
    let dc = c.device_config(&id).unwrap();
    let written = configure_content(dc.targets(), plan.config_write.as_ref().unwrap()).unwrap();
    assert_eq!(written, "set samwise_entry=\"Ubuntu 22.04\"\nexport samwise_entry\n");

    // ...then exactly one 116-byte frame goes out to the device's MAC...
    assert_eq!(plan.transport, Some(Transport::Wake));
    let interfaces = vec![InterfaceInfo {
        name: "eth0".to_string(),
        mac: Some(Mac(1, 2, 3, 4, 5, 6)),
    }];
    let source = select_source_mac(&interfaces, params.interface.as_str()).unwrap();
    let frame = build_magic_packet(source, params.mac_address);
    assert_eq!(frame.len(), 116);
    assert_eq!(&frame[0..6], &[0xaa, 0xbb, 0xcc, 0xdd, 0xee, 0xff]);

    // ...and the handler then waits for the target to come up.
    assert_eq!(plan.awaited, Some(StateCond::RunningTarget(ubuntu)));
}

#[test]
fn switch_between_booted_targets_uses_reboot_not_wol() {
    let c = sample();
    let id = DeviceId::new("d1".to_string()).unwrap();
    let dc = c.device_config(&id).unwrap();

    let ubuntu = TargetId::new("ubuntu".to_string()).unwrap();
    let windows = TargetId::new("windows".to_string()).unwrap();
    let plan = plan_action(&Action::Run(ubuntu.clone()), &AgentStatus::Active(windows));

    let written = configure_content(dc.targets(), plan.config_write.as_ref().unwrap()).unwrap();
    assert_eq!(written, "set samwise_entry=\"Ubuntu 22.04\"\nexport samwise_entry\n");
    assert_eq!(plan.transport, Some(Transport::RebootRpc));
    assert_eq!(plan.awaited, Some(StateCond::RunningTarget(ubuntu)));
}

#[test]
fn unknown_device_is_a_configuration_fault_at_startup() {
    let c = sample();
    let ghost = DeviceId::new("ghost".to_string()).unwrap();
    match device_params(&c, &ghost) {
        Err(Error::ConfigInvalid(m)) => {
            assert_eq!(m, "Missing configuration for ghost")
        }
        other => panic!("expected a configuration fault, got {:?}", other),
    }
}

#[test]
fn wake_failures_read_as_the_controller_logs_them() {
    assert_eq!(
        Error::WakeFailed(samwise::wol::WakeError::NoSuchInterface("eth9".to_string()))
            .message(),
        "No such network interface: eth9"
    );
    assert_eq!(
        Error::WakeFailed(samwise::wol::WakeError::NoSourceMac("tun0".to_string())).message(),
        "Network interface tun0 does not have a MAC address"
    );
    assert_eq!(
        Error::WakeFailed(samwise::wol::WakeError::OpenFailed("permission denied".to_string()))
            .message(),
        "Could not create datalink channel: permission denied"
    );
    assert_eq!(
        Error::WakeFailed(samwise::wol::WakeError::SendFailed(
            "aa:bb:cc:dd:ee:ff".to_string()
        ))
        .message(),
        "Sending magic packet to aa:bb:cc:dd:ee:ff failed"
    );
}
