//! Sounds and melodies.

use vstd::prelude::*;
use crate::commands::CommandError;
use crate::text::chars_of;

verus! {

/// The name of a melody written in RTTTL: what stands before its first
/// colon. A melody without a colon is refused.
pub fn rtttl_name(rtttl: &str) -> (r: Result<&str, CommandError>)
    ensures
        rtttl@.contains(':') ==> r is Ok && r->Ok_0@.is_prefix_of(rtttl@) && !r->Ok_0@.contains(
            ':',
        ) && r->Ok_0@.len() < rtttl@.len() && rtttl@[r->Ok_0@.len() as int] == ':',
        !rtttl@.contains(':') ==> r is Err && r->Err_0 is InvalidRtttl,
{
    let chars = chars_of(rtttl);
    let mut i: usize = 0;
    while i < chars.len()
        invariant
            i <= chars.len(),
            chars@ == rtttl@,
            forall|j: int| 0 <= j < i ==> chars[j] != ':',
        decreases chars.len() - i,
    {
        if chars[i] == ':' {
            let name = rtttl.substring_char(0, i);
            return Ok(name);
        }
        i += 1;
    }
    Err(CommandError::InvalidRtttl)
}

} // verus!
