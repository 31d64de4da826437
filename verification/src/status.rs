//! Status codes returned by firmware calls.

use vstd::prelude::*;

verus! {

/// The code of a call that succeeded.
pub const EFI_SUCCESS: u64 = 0;

/// The status that a firmware call returns.
///
/// The code zero is success. Every other code is a failure; which failure is
/// not looked at.
#[derive(Debug, PartialEq, Eq, Copy, Clone)]
#[must_use]
pub struct EfiStatus {
    pub code: u64,
}

impl EfiStatus {
    /// Whether the status reports success.
    pub open spec fn spec_is_success(&self) -> bool {
        self.code == EFI_SUCCESS
    }

    /// Whether the status reports success.
    #[verifier::when_used_as_spec(spec_is_success)]
    pub fn is_success(&self) -> (success: bool)
        ensures
            success == (self.code == 0),
    {
        self.code == EFI_SUCCESS
    }
}

} // verus!
