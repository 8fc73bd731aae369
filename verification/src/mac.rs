//! Hardware (MAC) addresses: the six octets, their text form, and the
//! round trip between the two.

use vstd::prelude::*;

verus! {

/// A six-octet hardware address.
#[derive(Clone, Copy, Debug, PartialEq, Eq, Hash, Structural)]
pub struct Mac(pub u8, pub u8, pub u8, pub u8, pub u8, pub u8);

/// The octets of a hardware address, in transmission order.
pub open spec fn mac_bytes(m: Mac) -> Seq<u8> {
    seq![m.0, m.1, m.2, m.3, m.4, m.5]
}

/// A hexadecimal digit, upper or lower case.
pub open spec fn is_hex_digit(c: char) -> bool {
    ('0' <= c && c <= '9') || ('a' <= c && c <= 'f') || ('A' <= c && c <= 'F')
}

/// The value of a hexadecimal digit.
pub open spec fn hex_digit_val(c: char) -> u8 {
    if '0' <= c && c <= '9' {
        (c as u32 - 48) as u8
    } else if 'a' <= c && c <= 'f' {
        (c as u32 - 87) as u8
    } else {
        (c as u32 - 55) as u8
    }
}

/// The lower-case hexadecimal digit for a value below sixteen.
pub open spec fn hex_char(n: u8) -> char {
    if n == 0 { '0' }
    else if n == 1 { '1' }
    else if n == 2 { '2' }
    else if n == 3 { '3' }
    else if n == 4 { '4' }
    else if n == 5 { '5' }
    else if n == 6 { '6' }
    else if n == 7 { '7' }
    else if n == 8 { '8' }
    else if n == 9 { '9' }
    else if n == 10 { 'a' }
    else if n == 11 { 'b' }
    else if n == 12 { 'c' }
    else if n == 13 { 'd' }
    else if n == 14 { 'e' }
    else { 'f' }
}

/// The canonical text of a hardware address: six lower-case two-digit
/// hexadecimal groups joined by colons, as in `aa:bb:cc:dd:ee:ff`.
pub open spec fn mac_render(m: Mac) -> Seq<char> {
    seq![
        hex_char(m.0 / 16), hex_char(m.0 % 16), ':',
        hex_char(m.1 / 16), hex_char(m.1 % 16), ':',
        hex_char(m.2 / 16), hex_char(m.2 % 16), ':',
        hex_char(m.3 / 16), hex_char(m.3 % 16), ':',
        hex_char(m.4 / 16), hex_char(m.4 % 16), ':',
        hex_char(m.5 / 16), hex_char(m.5 % 16),
    ]
}

/// Group `k` of a hardware-address text holds two hexadecimal digits.
pub open spec fn mac_group_ok(s: Seq<char>, k: int) -> bool {
    is_hex_digit(s[3 * k]) && is_hex_digit(s[3 * k + 1])
}

/// Text that parses as a hardware address: six two-digit hexadecimal
/// groups, in either case, joined by colons.
pub open spec fn valid_mac_text(s: Seq<char>) -> bool {
    s.len() == 17
    && s[2] == ':' && s[5] == ':' && s[8] == ':' && s[11] == ':' && s[14] == ':'
    && forall|k: int| 0 <= k < 6 ==> #[trigger] mac_group_ok(s, k)
}

/// The octet written at group `k` of a valid hardware-address text.
pub open spec fn mac_byte_at(s: Seq<char>, k: int) -> u8 {
    (hex_digit_val(s[3 * k]) * 16 + hex_digit_val(s[3 * k + 1])) as u8
}

/// What parsing a hardware-address text yields.
pub open spec fn mac_parse(s: Seq<char>) -> Option<Mac> {
    if valid_mac_text(s) {
        Some(Mac(
            mac_byte_at(s, 0),
            mac_byte_at(s, 1),
            mac_byte_at(s, 2),
            mac_byte_at(s, 3),
            mac_byte_at(s, 4),
            mac_byte_at(s, 5),
        ))
    } else {
        None
    }
}

fn is_hex_digit_exec(c: char) -> (r: bool)
    ensures
        r == is_hex_digit(c),
{
    let n = c as u32;
    (48 <= n && n <= 57) || (97 <= n && n <= 102) || (65 <= n && n <= 70)
}

fn hex_val_exec(c: char) -> (r: u8)
    requires
        is_hex_digit(c),
    ensures
        r == hex_digit_val(c),
        r < 16,
{
    let n = c as u32;
    if 48 <= n && n <= 57 {
        (n - 48) as u8
    } else if 97 <= n && n <= 102 {
        (n - 87) as u8
    } else {
        (n - 55) as u8
    }
}

pub(crate) fn hex_char_exec(n: u8) -> (r: char)
    requires
        n < 16,
    ensures
        r == hex_char(n),
{
    if n == 0 { '0' }
    else if n == 1 { '1' }
    else if n == 2 { '2' }
    else if n == 3 { '3' }
    else if n == 4 { '4' }
    else if n == 5 { '5' }
    else if n == 6 { '6' }
    else if n == 7 { '7' }
    else if n == 8 { '8' }
    else if n == 9 { '9' }
    else if n == 10 { 'a' }
    else if n == 11 { 'b' }
    else if n == 12 { 'c' }
    else if n == 13 { 'd' }
    else if n == 14 { 'e' }
    else { 'f' }
}

impl Mac {
    /// Parses the colon-separated hexadecimal text of a hardware address.
    pub fn parse(s: &str) -> (r: Option<Mac>)
        ensures
            r == mac_parse(s@),
    {
        let len = s.unicode_len();
        if len != 17 {
            return None;
        }
        if !(s.get_char(2) == ':' && s.get_char(5) == ':' && s.get_char(8) == ':'
            && s.get_char(11) == ':' && s.get_char(14) == ':') {
            return None;
        }
        let mut octets: Vec<u8> = Vec::new();
        let mut k: usize = 0;
        while k < 6
            invariant
                len == s@.len(),
                s@.len() == 17,
                k <= 6,
                octets@.len() == k,
                forall|j: int| 0 <= j < k ==> #[trigger] mac_group_ok(s@, j),
                forall|j: int| 0 <= j < k ==> octets@[j] == mac_byte_at(s@, j),
            decreases 6 - k,
        {
            let hi = s.get_char(3 * k);
            let lo = s.get_char(3 * k + 1);
            if !is_hex_digit_exec(hi) || !is_hex_digit_exec(lo) {
                proof {
                    assert(!mac_group_ok(s@, k as int));
                    assert(!valid_mac_text(s@));
                }
                return None;
            }
            octets.push(16 * hex_val_exec(hi) + hex_val_exec(lo));
            k += 1;
        }
        Some(Mac(octets[0], octets[1], octets[2], octets[3], octets[4], octets[5]))
    }

    /// Renders the canonical lower-case text of this address.
    pub fn render(&self) -> (r: String)
        ensures
            r@ == mac_render(*self),
    {
        let mut out = String::new();
        out.push(hex_char_exec(self.0 / 16));
        out.push(hex_char_exec(self.0 % 16));
        out.push(':');
        out.push(hex_char_exec(self.1 / 16));
        out.push(hex_char_exec(self.1 % 16));
        out.push(':');
        out.push(hex_char_exec(self.2 / 16));
        out.push(hex_char_exec(self.2 % 16));
        out.push(':');
        out.push(hex_char_exec(self.3 / 16));
        out.push(hex_char_exec(self.3 % 16));
        out.push(':');
        out.push(hex_char_exec(self.4 / 16));
        out.push(hex_char_exec(self.4 % 16));
        out.push(':');
        out.push(hex_char_exec(self.5 / 16));
        out.push(hex_char_exec(self.5 % 16));
        proof {
            assert(out@ =~= mac_render(*self));
        }
        out
    }
}

/// The digit written for a value reads back as that value.
proof fn lemma_hex_char_round_trip(n: u8)
    requires
        n < 16,
    ensures
        is_hex_digit(hex_char(n)),
        hex_digit_val(hex_char(n)) == n,
{
}

/// Law: rendering a hardware address and parsing the text gives the
/// address back.
pub proof fn lemma_mac_round_trip(m: Mac)
    ensures
        mac_parse(mac_render(m)) == Some(m),
{
    let s = mac_render(m);
    lemma_hex_char_round_trip(m.0 / 16);
    lemma_hex_char_round_trip(m.0 % 16);
    lemma_hex_char_round_trip(m.1 / 16);
    lemma_hex_char_round_trip(m.1 % 16);
    lemma_hex_char_round_trip(m.2 / 16);
    lemma_hex_char_round_trip(m.2 % 16);
    lemma_hex_char_round_trip(m.3 / 16);
    lemma_hex_char_round_trip(m.3 % 16);
    lemma_hex_char_round_trip(m.4 / 16);
    lemma_hex_char_round_trip(m.4 % 16);
    lemma_hex_char_round_trip(m.5 / 16);
    lemma_hex_char_round_trip(m.5 % 16);
    assert(valid_mac_text(s)) by {
        assert forall|k: int| 0 <= k < 6 implies #[trigger] mac_group_ok(s, k) by {
            if k == 0 {
            } else if k == 1 {
            } else if k == 2 {
            } else if k == 3 {
            } else if k == 4 {
            } else {
            }
        }
    }
    assert(mac_byte_at(s, 0) == m.0);
    assert(mac_byte_at(s, 1) == m.1);
    assert(mac_byte_at(s, 2) == m.2);
    assert(mac_byte_at(s, 3) == m.3);
    assert(mac_byte_at(s, 4) == m.4);
    assert(mac_byte_at(s, 5) == m.5);
}

} // verus!
