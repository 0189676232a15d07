//! The fatal failures of an invocation.

use vstd::prelude::*;

verus! {

/// Why an invocation failed. Probe failures are deliberately absent: they are
/// swallowed and never surface.
#[derive(Debug)]
pub enum PolicyError {
    /// The payload, the settings or the object under admission did not parse.
    Decode,
    /// The mutated object could not be serialized.
    Encode,
}

impl PolicyError {
    /// A fixed description, fit for surfacing to the host.
    pub fn message(&self) -> (r: &'static str)
        ensures
            self matches PolicyError::Decode ==> r@ == "cannot decode the validation request"@,
            self matches PolicyError::Encode ==> r@ == "cannot serialize the mutated object"@,
    {
        match self {
            PolicyError::Decode => "cannot decode the validation request",
            PolicyError::Encode => "cannot serialize the mutated object",
        }
    }
}

} // verus!
