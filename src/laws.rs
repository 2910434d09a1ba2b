use vstd::prelude::*;

use crate::engine::{jurisdiction_bit_set, kyc_verdict, verdict};
use crate::error::CompliFiError;
use crate::instructions::{verification_outcome, violation_outcome};
use crate::state::{Address, CompliancePolicy, ComplianceState, KycAttestation};

verus! {

/// Under a policy that requires identity verification, a wallet with no
/// attestation fails with `KycNotVerified`; the counters, as for every
/// failure of `verify_compliance`, stay as they were.
pub proof fn lemma_missing_attestation_rejected(
    state: ComplianceState,
    policy: CompliancePolicy,
    user: Address,
    risk_score: Option<u8>,
)
    requires
        policy.require_kyc,
        policy.authority@ == state.authority@,
    ensures
        verification_outcome(state, policy, user, None, risk_score) == Err::<
            (u8, ComplianceState),
            CompliFiError,
        >(CompliFiError::KycNotVerified),
{
}

/// Under a policy that requires identity verification, an unverified
/// attestation fails with `KycNotVerified`, whatever its jurisdiction and
/// whatever the risk score.
pub proof fn lemma_unverified_attestation_rejected(
    state: ComplianceState,
    policy: CompliancePolicy,
    user: Address,
    attestation: KycAttestation,
    risk_score: Option<u8>,
)
    requires
        policy.require_kyc,
        policy.authority@ == state.authority@,
        !attestation.is_verified,
    ensures
        verification_outcome(state, policy, user, Some(attestation), risk_score) == Err::<
            (u8, ComplianceState),
            CompliFiError,
        >(CompliFiError::KycNotVerified),
{
}

/// For a verified attestation of the evaluated wallet, the jurisdiction check
/// passes exactly when bit `j` of the allow-bitmap is set, and fails for every
/// code of 80 or more; a failing check ends the evaluation with
/// `RestrictedJurisdiction`.
pub proof fn lemma_jurisdiction_check(
    state: ComplianceState,
    policy: CompliancePolicy,
    user: Address,
    attestation: KycAttestation,
    risk_score: Option<u8>,
)
    requires
        policy.require_kyc,
        policy.authority@ == state.authority@,
        attestation.is_verified,
        attestation.wallet@ == user@,
    ensures
        kyc_verdict(policy, user, Some(attestation)) is None <==> jurisdiction_bit_set(
            policy.allowed_jurisdictions@,
            attestation.jurisdiction as int,
        ),
        attestation.jurisdiction >= 80 ==> !jurisdiction_bit_set(
            policy.allowed_jurisdictions@,
            attestation.jurisdiction as int,
        ),
        !jurisdiction_bit_set(policy.allowed_jurisdictions@, attestation.jurisdiction as int)
            ==> verification_outcome(state, policy, user, Some(attestation), risk_score) == Err::<
            (u8, ComplianceState),
            CompliFiError,
        >(CompliFiError::RestrictedJurisdiction),
{
}

/// Once the identity checks pass, an evaluation succeeds exactly when the
/// risk score is at most the policy's threshold; the threshold itself passes.
pub proof fn lemma_risk_threshold_inclusive(
    state: ComplianceState,
    policy: CompliancePolicy,
    user: Address,
    attestation: Option<KycAttestation>,
    risk_score: u8,
)
    requires
        policy.authority@ == state.authority@,
        kyc_verdict(policy, user, attestation) is None,
        state.verification_count < u64::MAX,
    ensures
        verification_outcome(state, policy, user, attestation, Some(risk_score)) is Ok
            <==> risk_score <= policy.max_risk_score,
        verdict(policy, user, attestation, Some(policy.max_risk_score)) == Ok::<u8, CompliFiError>(
            policy.max_risk_score,
        ),
        risk_score > policy.max_risk_score ==> verification_outcome(
            state,
            policy,
            user,
            attestation,
            Some(risk_score),
        ) == Err::<(u8, ComplianceState), CompliFiError>(CompliFiError::RiskScoreTooHigh),
{
}

/// Each successful evaluation raises the verification counter by exactly one
/// and leaves the violation counter and the owner alone; each successful
/// violation record does the reverse. A counter at its largest value makes
/// the call fail instead of wrapping. (A failed call changes nothing: see the
/// contracts of `verify_compliance` and `record_violation`.)
pub proof fn lemma_counters_step_by_one(
    state: ComplianceState,
    policy: CompliancePolicy,
    user: Address,
    attestation: Option<KycAttestation>,
    risk_score: Option<u8>,
    caller: Address,
)
    ensures
        verification_outcome(state, policy, user, attestation, risk_score) matches Ok((_, next))
            ==> {
            &&& next.verification_count == state.verification_count + 1
            &&& next.violation_count == state.violation_count
            &&& next.authority == state.authority
        },
        violation_outcome(state, caller) matches Ok(next) ==> {
            &&& next.violation_count == state.violation_count + 1
            &&& next.verification_count == state.verification_count
            &&& next.authority == state.authority
        },
        state.verification_count == u64::MAX ==> verification_outcome(
            state,
            policy,
            user,
            attestation,
            risk_score,
        ) is Err,
        state.violation_count == u64::MAX ==> violation_outcome(state, caller) is Err,
{
}

} // verus!
