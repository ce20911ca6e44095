//! The one recoverable failure of a conversion.

use vstd::prelude::*;

verus! {

/// The runtime tag of a foreign value does not fit the host type asked for.
///
/// It carries nothing but its kind; its description is fixed.
#[derive(Clone, Copy, Debug, PartialEq, Eq, Structural)]
pub struct BQNCastError;

impl BQNCastError {
    /// The fixed description of the failure.
    pub fn message(&self) -> (text: String)
        ensures
            text@ == "invalid first item to double"@,
    {
        "invalid first item to double".to_string()
    }
}

} // verus!
