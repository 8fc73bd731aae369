//! Wake-on-LAN: the magic-packet layout and source-interface selection.
//!
//! The frame itself is built here, byte for byte; handing it to the
//! network card is the caller's affair.

use vstd::prelude::*;
use crate::mac::Mac;
use crate::mac::mac_bytes;

verus! {

/// Length in bytes of a Wake-on-LAN frame, Ethernet header included.
pub const MAGIC_PACKET_SIZE: usize = 116;

/// The destination address repeated `n` times, six bytes each.
pub open spec fn mac_repeated(m: Mac, n: nat) -> Seq<u8>
    decreases n,
{
    if n == 0 {
        Seq::empty()
    } else {
        mac_repeated(m, (n - 1) as nat) + mac_bytes(m)
    }
}

/// The bytes of a Wake-on-LAN frame for `dest` sent from `source`: a
/// 14-byte Ethernet header (destination, source, EtherType 0x0842),
/// then six 0xff bytes, then the destination address sixteen times.
pub open spec fn magic_packet_bytes(source: Mac, dest: Mac) -> Seq<u8> {
    mac_bytes(dest) + mac_bytes(source) + seq![0x08u8, 0x42u8]
        + seq![0xffu8, 0xffu8, 0xffu8, 0xffu8, 0xffu8, 0xffu8]
        + mac_repeated(dest, 16)
}

proof fn lemma_mac_repeated_len(m: Mac, n: nat)
    ensures
        mac_repeated(m, n).len() == 6 * n,
    decreases n,
{
    if n > 0 {
        lemma_mac_repeated_len(m, (n - 1) as nat);
    }
}

proof fn lemma_mac_repeated_index(m: Mac, n: nat, r: int, t: int)
    requires
        0 <= r < n,
        0 <= t < 6,
    ensures
        mac_repeated(m, n)[6 * r + t] == mac_bytes(m)[t],
    decreases n,
{
    lemma_mac_repeated_len(m, (n - 1) as nat);
    if r == n - 1 {
    } else {
        lemma_mac_repeated_index(m, (n - 1) as nat, r, t);
    }
}

/// The six bytes of repetition `r` in a magic packet's trailer.
pub open spec fn packet_repetition(p: Seq<u8>, r: int) -> Seq<u8> {
    p.subrange(20 + 6 * r, 26 + 6 * r)
}

/// Law: the layout of a magic packet. It is exactly 116 bytes: the
/// destination address, the source address, the EtherType bytes 0x08
/// 0x42, six 0xff bytes, and the destination address sixteen times over.
pub proof fn lemma_magic_packet_layout(source: Mac, dest: Mac)
    ensures
        magic_packet_bytes(source, dest).len() == 116,
        magic_packet_bytes(source, dest).subrange(0, 6) == mac_bytes(dest),
        magic_packet_bytes(source, dest).subrange(6, 12) == mac_bytes(source),
        magic_packet_bytes(source, dest)[12] == 0x08,
        magic_packet_bytes(source, dest)[13] == 0x42,
        forall|i: int| 14 <= i < 20 ==> magic_packet_bytes(source, dest)[i] == 0xff,
        forall|r: int|
            0 <= r < 16 ==> #[trigger] packet_repetition(magic_packet_bytes(source, dest), r)
                == mac_bytes(dest),
{
    let p = magic_packet_bytes(source, dest);
    lemma_mac_repeated_len(dest, 16);
    assert(p.subrange(0, 6) =~= mac_bytes(dest));
    assert(p.subrange(6, 12) =~= mac_bytes(source));
    assert forall|r: int| 0 <= r < 16 implies #[trigger] packet_repetition(p, r) == mac_bytes(
        dest,
    ) by {
        assert forall|t: int| 0 <= t < 6 implies packet_repetition(p, r)[t] == mac_bytes(dest)[t] by {
            lemma_mac_repeated_index(dest, 16, r, t);
            assert(p[20 + 6 * r + t] == mac_repeated(dest, 16)[6 * r + t]);
        }
        assert(packet_repetition(p, r) =~= mac_bytes(dest));
    }
}

/// Builds the Wake-on-LAN frame for `dest`, to be sent from the
/// interface whose hardware address is `source`.
pub fn build_magic_packet(source: Mac, dest: Mac) -> (r: Vec<u8>)
    ensures
        r@ == magic_packet_bytes(source, dest),
        r@.len() == MAGIC_PACKET_SIZE,
{
    let mut buf: Vec<u8> = Vec::new();
    buf.push(dest.0);
    buf.push(dest.1);
    buf.push(dest.2);
    buf.push(dest.3);
    buf.push(dest.4);
    buf.push(dest.5);
    buf.push(source.0);
    buf.push(source.1);
    buf.push(source.2);
    buf.push(source.3);
    buf.push(source.4);
    buf.push(source.5);
    buf.push(0x08);
    buf.push(0x42);
    buf.push(0xff);
    buf.push(0xff);
    buf.push(0xff);
    buf.push(0xff);
    buf.push(0xff);
    buf.push(0xff);
    let ghost header = buf@;
    assert(header =~= mac_bytes(dest) + mac_bytes(source) + seq![0x08u8, 0x42u8]
        + seq![0xffu8, 0xffu8, 0xffu8, 0xffu8, 0xffu8, 0xffu8]);
    let mut rep: usize = 0;
    while rep < 16
        invariant
            rep <= 16,
            buf@ =~= header + mac_repeated(dest, rep as nat),
        decreases 16 - rep,
    {
        buf.push(dest.0);
        buf.push(dest.1);
        buf.push(dest.2);
        buf.push(dest.3);
        buf.push(dest.4);
        buf.push(dest.5);
        rep += 1;
        assert(buf@ =~= header + mac_repeated(dest, rep as nat));
    }
    proof {
        lemma_mac_repeated_len(dest, 16);
        assert(buf@ =~= magic_packet_bytes(source, dest));
    }
    buf
}

/// What went wrong while trying to wake a device.
#[derive(Debug, PartialEq, Eq)]
pub enum WakeError {
    /// No interface of the given name exists on this host.
    NoSuchInterface(String),
    /// The named interface has no hardware address to send from.
    NoSourceMac(String),
    /// Opening the link-layer channel failed; carries the report.
    OpenFailed(String),
    /// Handing the frame to the interface failed; names the
    /// destination address the frame was meant for.
    SendFailed(String),
}

/// What the library needs to know of one host network interface.
#[derive(Debug)]
pub struct InterfaceInfo {
    /// The interface name, as the host reports it.
    pub name: String,
    /// The interface's own hardware address, if it has one.
    pub mac: Option<Mac>,
}

/// The first interface of the given name, if any.
pub open spec fn find_interface(s: Seq<InterfaceInfo>, name: Seq<char>) -> Option<InterfaceInfo>
    decreases s.len(),
{
    if s.len() == 0 {
        None
    } else if s[0].name@ == name {
        Some(s[0])
    } else {
        find_interface(s.drop_first(), name)
    }
}

/// The source address to wake from: that of the first interface with
/// the given name, provided it has one.
pub fn select_source_mac(interfaces: &Vec<InterfaceInfo>, name: &str) -> (r: Result<
    Mac,
    WakeError,
>)
    ensures
        match find_interface(interfaces@, name@) {
            None => r matches Err(WakeError::NoSuchInterface(n)) && n@ == name@,
            Some(intf) => match intf.mac {
                Some(m) => r == Ok::<Mac, WakeError>(m),
                None => r matches Err(WakeError::NoSourceMac(n)) && n@ == name@,
            },
        },
{
    let name_owned = String::from_str(name);
    let n = interfaces.len();
    let mut i: usize = 0;
    proof {
        assert(interfaces@.skip(0) =~= interfaces@);
    }
    while i < n
        invariant
            n == interfaces@.len(),
            i <= n,
            name_owned@ == name@,
            find_interface(interfaces@, name@) == find_interface(interfaces@.skip(i as int), name@),
        decreases n - i,
    {
        let intf = &interfaces[i];
        proof {
            assert(interfaces@.skip(i as int)[0] == interfaces@[i as int]);
        }
        if intf.name.eq(&name_owned) {
            proof {
                assert(interfaces@.skip(i as int).len() > 0);
                assert(intf.name@ == name@);
                assert(interfaces@[i as int].name@ == name@);
                assert(interfaces@.skip(i as int)[0].name@ == name@);
                assert(find_interface(interfaces@.skip(i as int), name@) == Some(
                    interfaces@.skip(i as int)[0],
                ));
                assert(find_interface(interfaces@, name@) == Some(interfaces@[i as int]));
            }
            match &intf.mac {
                Some(m) => {
                    return Ok(*m);
                },
                None => {
                    return Err(WakeError::NoSourceMac(String::from_str(name)));
                },
            }
        }
        proof {
            assert(interfaces@.skip(i as int).drop_first() =~= interfaces@.skip(i as int + 1));
        }
        i += 1;
    }
    proof {
        assert(interfaces@.skip(i as int).len() == 0);
    }
    Err(WakeError::NoSuchInterface(String::from_str(name)))
}

} // verus!

