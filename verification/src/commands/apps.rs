//! The app loop.

use vstd::prelude::*;
use crate::models::app::AppInfo;

verus! {

/// Whether an app counts as enabled: it does unless the device says
/// otherwise.
pub open spec fn is_enabled(enabled: Option<bool>) -> bool {
    enabled != Some(false)
}

/// The word for the state of an app.
pub fn app_status(app: &AppInfo) -> (status: &'static str)
    ensures
        status@ == (if is_enabled(app.enabled) {
            "enabled"@
        } else {
            "disabled"@
        }),
{
    match app.enabled {
        Some(false) => "disabled",
        _ => "enabled",
    }
}

} // verus!
