//! Per-request policy settings.

use vstd::prelude::*;

verus! {

/// The only setting is the flag that switches the malicious probe on; it
/// defaults to off.
pub struct Settings {
    pub evil: bool,
}

impl Settings {
    /// Every settings value is valid: the one field is a free boolean.
    pub fn validate(&self) -> (r: bool)
        ensures
            r,
    {
        true
    }
}

} // verus!
