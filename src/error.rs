use vstd::prelude::*;

verus! {

/// Every way an operation of the compliance program can fail.
#[derive(Clone, Copy, Debug, PartialEq, Eq, Structural)]
pub enum CompliFiError {
    /// The attestation is missing, belongs to another wallet, or is not verified.
    KycNotVerified,
    /// The oracle reported a risk score above the policy's threshold.
    RiskScoreTooHigh,
    /// The jurisdiction is not in the policy's allow-bitmap, or out of its range.
    RestrictedJurisdiction,
    /// The caller lacks the authority the operation requires.
    Unauthorized,
    /// A policy update carried an out-of-range threshold.
    InvalidPolicyParameters,
    /// The attestation could not be authenticated.
    AttestationVerificationFailed,
    /// The risk oracle could not provide a score.
    OracleDataFetchFailed,
    /// A counter would pass its largest value.
    CounterOverflow,
}

} // verus!
