use samwise::mac::Mac;
use samwise::wol::{build_magic_packet, select_source_mac, InterfaceInfo, WakeError, MAGIC_PACKET_SIZE};

#[test]
fn magic_packet_layout_is_bit_exact() {
    let source = Mac(0x11, 0x22, 0x33, 0x44, 0x55, 0x66);
    let dest = Mac(0xaa, 0xbb, 0xcc, 0xdd, 0xee, 0xff);
    let p = build_magic_packet(source, dest);

    assert_eq!(p.len(), 116);
    assert_eq!(p.len(), MAGIC_PACKET_SIZE);
    // Ethernet header: destination, source, EtherType 0x0842.
    assert_eq!(&p[0..6], &[0xaa, 0xbb, 0xcc, 0xdd, 0xee, 0xff]);
    assert_eq!(&p[6..12], &[0x11, 0x22, 0x33, 0x44, 0x55, 0x66]);
    assert_eq!(p[12], 0x08);
    assert_eq!(p[13], 0x42);
    // Payload: six 0xff bytes, then the destination sixteen times.
    for i in 14..20 {
        assert_eq!(p[i], 0xff);
    }
    for rep in 0..16 {
        let at = 20 + 6 * rep;
        assert_eq!(&p[at..at + 6], &[0xaa, 0xbb, 0xcc, 0xdd, 0xee, 0xff]);
    }
}

fn hosts() -> Vec<InterfaceInfo> {
    vec![
        InterfaceInfo {
            name: "lo".to_string(),
            mac: None,
        },
        InterfaceInfo {
            name: "eth0".to_string(),
            mac: Some(Mac(1, 2, 3, 4, 5, 6)),
        },
        InterfaceInfo {
            name: "eth1".to_string(),
            mac: Some(Mac(9, 9, 9, 9, 9, 9)),
        },
    ]
}

#[test]
fn selects_named_interface_mac() {
    assert_eq!(select_source_mac(&hosts(), "eth0"), Ok(Mac(1, 2, 3, 4, 5, 6)));
    assert_eq!(select_source_mac(&hosts(), "eth1"), Ok(Mac(9, 9, 9, 9, 9, 9)));
}

#[test]
fn missing_interface_is_reported_by_name() {
    assert_eq!(
        select_source_mac(&hosts(), "wlan0"),
        Err(WakeError::NoSuchInterface("wlan0".to_string()))
    );
}

#[test]
fn interface_without_mac_is_refused() {
    assert_eq!(
        select_source_mac(&hosts(), "lo"),
        Err(WakeError::NoSourceMac("lo".to_string()))
    );
}
