//! A small extension to vstd's string support.

use vstd::prelude::*;

verus! {

/// Relies on std's String::push: appends exactly the given character to the
/// end of the string.
pub assume_specification[ String::push ](s: &mut String, c: char)
    ensures
        final(s)@ == old(s)@.push(c),
;

} // verus!
