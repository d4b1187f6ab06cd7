use vstd::prelude::*;

verus! {

/// Why a callback was not accepted.
#[derive(Clone, Copy, Debug, PartialEq, Eq, Structural)]
pub enum VerifyError {
    /// The exchange with the provider failed, or the provider confirmed an
    /// assertion whose claimed identity is not a Steam identity URL.
    BadRequestOrResponse,
    /// The callback query string does not hold the expected fields.
    BadQuery,
    /// The provider did not confirm the assertion.
    Denied,
}

} // verus!
