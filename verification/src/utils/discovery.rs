//! Telling the devices of this kind from the others that answer on a
//! network.

use vstd::prelude::*;
use crate::text::{chars_of, contains_text, occurs_in};
use crate::utils::{lowercase_of, to_lowercase};

verus! {

/// A device that was found on the network.
#[derive(Debug, Clone)]
pub struct DiscoveredDevice {
    /// The host name under which the device announces itself.
    pub name: String,
    /// The address of the device.
    pub host: String,
    /// The port of its service.
    pub port: u16,
    /// What else the device announces, as keys and values.
    pub txt_records: Vec<(String, String)>,
}

/// Whether a host name in lower case gives a device of this kind away:
/// it holds `awtrix` or `ulanzi`.
pub open spec fn names_awtrix(lowered: Seq<char>) -> bool {
    occurs_in("awtrix"@, lowered) || occurs_in("ulanzi"@, lowered)
}

/// Decides `names_awtrix` for a host name in lower case.
pub fn is_awtrix_hostname(lowered: &str) -> (b: bool)
    ensures
        b == names_awtrix(lowered@),
{
    let chars = chars_of(lowered);
    contains_text(&chars, "awtrix") || contains_text(&chars, "ulanzi")
}

/// Whether a host name, in whatever case, gives a device of this kind
/// away.
pub fn is_awtrix_device(hostname: &str) -> (b: bool)
    ensures
        b == names_awtrix(lowercase_of(hostname@)),
{
    let lowered = to_lowercase(hostname);
    is_awtrix_hostname(lowered.as_str())
}

} // verus!
