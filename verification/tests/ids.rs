use samwise::id::{DeviceId, TargetId};

#[test]
fn device_id_accepts_alphanumeric() {
    let id = DeviceId::new("htpc".to_string()).expect("plain name accepted");
    assert_eq!(id.as_string(), "htpc");
    assert!(DeviceId::new("Desktop2".to_string()).is_some());
    assert!(DeviceId::new("ABC123xyz".to_string()).is_some());
}

#[test]
fn device_id_rejects_empty() {
    assert!(DeviceId::new(String::new()).is_none());
}

#[test]
fn device_id_rejects_non_alphanumeric() {
    assert!(DeviceId::new("my-desktop".to_string()).is_none());
    assert!(DeviceId::new("a b".to_string()).is_none());
    assert!(DeviceId::new("htpc!".to_string()).is_none());
    assert!(DeviceId::new("a_b".to_string()).is_none());
    assert!(DeviceId::new("caf\u{e9}".to_string()).is_none());
    assert!(DeviceId::new(".".to_string()).is_none());
}

#[test]
fn target_id_accepts_any_non_empty() {
    let t = TargetId::new("ubuntu-lts".to_string()).expect("dashes are fine in targets");
    assert_eq!(t.as_string(), "ubuntu-lts");
    assert!(TargetId::new("windows".to_string()).is_some());
}

#[test]
fn target_id_rejects_empty() {
    assert!(TargetId::new(String::new()).is_none());
}

#[test]
fn ids_compare_by_content() {
    let a = DeviceId::new("htpc".to_string()).unwrap();
    let b = DeviceId::new("htpc".to_string()).unwrap();
    let c = DeviceId::new("other1".to_string()).unwrap();
    assert_eq!(a, b);
    assert_ne!(a, c);
    assert_eq!(a.clone(), b);
}
