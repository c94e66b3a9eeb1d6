//! Errors surfaced by the credential system.

use vstd::prelude::*;

verus! {

/// Error taxonomy of the credential system. Verify-side failures are never
/// distinguished to the caller: every mismatch is a `VerificationFailure`.
#[derive(Clone, Copy, Debug, PartialEq, Eq, Structural)]
pub enum CredentialError {
    /// A NIZK verification step failed.
    VerificationFailure,
    /// A compressed point was not a valid group element.
    PointDecodingFailure,
    /// The attribute vector length differs from the system parameter.
    BadAttributeCount,
    /// The random number generator failed during nonce sampling.
    RngFailure,
}

} // verus!
