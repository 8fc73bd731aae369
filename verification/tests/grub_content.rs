use samwise::config::{Configuration, RawConfiguration, RawDeviceEntry, RawTargetEntry};
use samwise::errors::Error;
use samwise::grub::{configure_content, grub_config_path, render_grub_config};
use samwise::id::{DeviceId, TargetId};

fn sample() -> Configuration {
    Configuration::load(&RawConfiguration {
        devices: vec![RawDeviceEntry {
            name: "htpc".to_string(),
            agent: "http://htpc.lan:8673".to_string(),
            interface: None,
            mac_address: "aa:bb:cc:dd:ee:ff".to_string(),
            grub_config: "htpc/samwise.cfg".to_string(),
            targets: vec![RawTargetEntry {
                name: "ubuntu".to_string(),
                menu_entry: "Ubuntu 22.04".to_string(),
            }],
        }],
        tftp_directory: "/srv/tftp".to_string(),
        default_interface: "eth0".to_string(),
    })
    .unwrap()
}

#[test]
fn file_content_is_exactly_two_lines() {
    assert_eq!(
        render_grub_config("Ubuntu 22.04"),
        "set samwise_entry=\"Ubuntu 22.04\"\nexport samwise_entry\n"
    );
    assert_eq!(
        render_grub_config(""),
        "set samwise_entry=\"\"\nexport samwise_entry\n"
    );
}

#[test]
fn configuring_a_known_target_renders_its_entry() {
    let c = sample();
    let id = DeviceId::new("htpc".to_string()).unwrap();
    let dc = c.device_config(&id).unwrap();
    let ubuntu = TargetId::new("ubuntu".to_string()).unwrap();
    assert_eq!(
        configure_content(dc.targets(), &ubuntu),
        Ok("set samwise_entry=\"Ubuntu 22.04\"\nexport samwise_entry\n".to_string())
    );
}

#[test]
fn configuring_an_unknown_target_fails() {
    let c = sample();
    let id = DeviceId::new("htpc".to_string()).unwrap();
    let dc = c.device_config(&id).unwrap();
    let plan9 = TargetId::new("plan9".to_string()).unwrap();
    match configure_content(dc.targets(), &plan9) {
        Err(Error::UnknownTarget(t)) => assert_eq!(t.as_string(), "plan9"),
        other => panic!("expected an unknown-target error, got {:?}", other),
    }
}

#[test]
fn config_file_path_joins_tftp_directory() {
    assert_eq!(
        grub_config_path("/srv/tftp", "htpc/samwise.cfg"),
        "/srv/tftp/htpc/samwise.cfg"
    );
}
