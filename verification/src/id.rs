//! Typed identifiers for devices and boot targets.

use vstd::prelude::*;

verus! {

/// A character a device identifier may contain: an ASCII letter or digit.
pub open spec fn is_id_char(c: char) -> bool {
    ('0' <= c && c <= '9') || ('a' <= c && c <= 'z') || ('A' <= c && c <= 'Z')
}

/// A well-formed device identifier: non-empty and alphanumeric throughout.
pub open spec fn valid_device_id(s: Seq<char>) -> bool {
    s.len() > 0 && forall|i: int| 0 <= i < s.len() ==> is_id_char(s[i])
}

/// A well-formed target identifier: any non-empty string.
pub open spec fn valid_target_id(s: Seq<char>) -> bool {
    s.len() > 0
}

/// Identifier referring to a particular device. For example, `htpc` or `desktop2`.
/// Constructed only from non-empty alphanumeric strings.
#[derive(Debug, PartialEq, Eq, Hash)]
pub struct DeviceId {
    id: String,
}

impl View for DeviceId {
    type V = Seq<char>;

    closed spec fn view(&self) -> Seq<char> {
        self.id@
    }
}

impl Clone for DeviceId {
    fn clone(&self) -> (r: Self)
        ensures
            r == *self,
    {
        DeviceId { id: self.id.clone() }
    }
}

impl DeviceId {
    /// Accepts exactly the non-empty alphanumeric strings.
    pub fn new(s: String) -> (r: Option<DeviceId>)
        ensures
            r is Some <==> valid_device_id(s@),
            r is Some ==> r->0@ == s@,
    {
        let sl = s.as_str();
        let len = sl.unicode_len();
        if len == 0 {
            return None;
        }
        for i in 0..len
            invariant
                len == s@.len(),
                sl@ == s@,
                forall|j: int| 0 <= j < i ==> is_id_char(s@[j]),
        {
            let c = sl.get_char(i);
            let n = c as u32;
            let ok = (48 <= n && n <= 57) || (97 <= n && n <= 122) || (65 <= n && n <= 90);
            if !ok {
                assert(!is_id_char(s@[i as int]));
                return None;
            }
            assert(is_id_char(s@[i as int]));
        }
        Some(DeviceId { id: s })
    }

    /// The identifier as the string it wraps.
    pub fn as_string(&self) -> (r: &String)
        ensures
            r@ == self@,
    {
        &self.id
    }
}

/// Identifier for a bootable target. For example, `windows` or `ubuntu`.
/// Constructed only from non-empty strings.
#[derive(Debug, PartialEq, Eq, Hash)]
pub struct TargetId {
    id: String,
}

impl View for TargetId {
    type V = Seq<char>;

    closed spec fn view(&self) -> Seq<char> {
        self.id@
    }
}

impl Clone for TargetId {
    fn clone(&self) -> (r: Self)
        ensures
            r == *self,
    {
        TargetId { id: self.id.clone() }
    }
}

impl TargetId {
    /// Accepts exactly the non-empty strings.
    pub fn new(s: String) -> (r: Option<TargetId>)
        ensures
            r is Some <==> valid_target_id(s@),
            r is Some ==> r->0@ == s@,
    {
        if s.as_str().unicode_len() == 0 {
            None
        } else {
            Some(TargetId { id: s })
        }
    }

    /// The identifier as the string it wraps.
    pub fn as_string(&self) -> (r: &String)
        ensures
            r@ == self@,
    {
        &self.id
    }
}

} // verus!
