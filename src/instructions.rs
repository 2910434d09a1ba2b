use vstd::prelude::*;

use crate::engine::{evaluate, verdict};
use crate::error::CompliFiError;
use crate::state::{
    Address, CompliancePolicy, ComplianceState, KycAttestation, KycAttestationEvent,
    VerificationEvent, ViolationEvent, MAX_RISK_THRESHOLD,
};

verus! {

/// Risk threshold of a freshly created policy.
pub const DEFAULT_MAX_RISK_SCORE: u8 = 3;

/// The state after one more passed verification, or the overflow error.
pub open spec fn with_verification(s: ComplianceState) -> Result<ComplianceState, CompliFiError> {
    if s.verification_count < u64::MAX {
        Ok(ComplianceState { verification_count: (s.verification_count + 1) as u64, ..s })
    } else {
        Err(CompliFiError::CounterOverflow)
    }
}

/// The state after one more recorded violation, or the overflow error.
pub open spec fn with_violation(s: ComplianceState) -> Result<ComplianceState, CompliFiError> {
    if s.violation_count < u64::MAX {
        Ok(ComplianceState { violation_count: (s.violation_count + 1) as u64, ..s })
    } else {
        Err(CompliFiError::CounterOverflow)
    }
}

/// The whole effect of one evaluation on the counters: the policy must belong
/// to their owner, the verdict must pass, and the verification counter must
/// have room. On success, the accepted risk score and the new counters.
pub open spec fn verification_outcome(
    state: ComplianceState,
    policy: CompliancePolicy,
    user: Address,
    attestation: Option<KycAttestation>,
    risk_score: Option<u8>,
) -> Result<(u8, ComplianceState), CompliFiError> {
    if policy.authority@ != state.authority@ {
        Err(CompliFiError::Unauthorized)
    } else {
        match verdict(policy, user, attestation, risk_score) {
            Err(e) => Err(e),
            Ok(s) => match with_verification(state) {
                Err(e) => Err(e),
                Ok(next) => Ok((s, next)),
            },
        }
    }
}

/// The whole effect of recording a violation on the counters: the caller
/// must own them, and the violation counter must have room.
pub open spec fn violation_outcome(state: ComplianceState, caller: Address) -> Result<
    ComplianceState,
    CompliFiError,
> {
    if caller@ != state.authority@ {
        Err(CompliFiError::Unauthorized)
    } else {
        with_violation(state)
    }
}

/// Accounts of `initialize`: the counters to set up and their owner.
pub struct Initialize {
    pub state: ComplianceState,
    pub authority: Address,
}

/// Accounts of `initialize_policy`: the policy to set up and its owner.
pub struct InitializePolicy {
    pub policy: CompliancePolicy,
    pub authority: Address,
}

/// Accounts of `create_kyc_attestation`: the record kept for `wallet`, and the
/// signer who writes it.
pub struct CreateKycAttestation {
    pub attestation: KycAttestation,
    pub authority: Address,
    pub wallet: Address,
}

/// Accounts of `verify_compliance`: the counters, the governing policy, and
/// the attestation resolved for the evaluated wallet, if one exists.
pub struct VerifyCompliance {
    pub state: ComplianceState,
    pub policy: CompliancePolicy,
    pub authority: Address,
    pub attestation: Option<KycAttestation>,
}

/// Accounts of `set_policy`: the policy and the signer who updates it.
pub struct SetPolicy {
    pub policy: CompliancePolicy,
    pub authority: Address,
}

/// Accounts of `record_violation`: the counters and the signer reporting.
pub struct RecordViolation {
    pub state: ComplianceState,
    pub authority: Address,
}

/// Sets up the counters, owned by the signer, both at zero.
pub fn initialize(ctx: &mut Initialize) -> (r: Result<(), CompliFiError>)
    ensures
        r is Ok,
        final(ctx).authority == old(ctx).authority,
        final(ctx).state == (ComplianceState {
            authority: old(ctx).authority,
            verification_count: 0,
            violation_count: 0,
        }),
{
    ctx.state = ComplianceState { authority: ctx.authority, verification_count: 0, violation_count: 0 };
    Ok(())
}

/// Sets up a policy owned by the signer: identity verification required, a
/// risk threshold of 3, and no jurisdiction permitted.
pub fn initialize_policy(ctx: &mut InitializePolicy) -> (r: Result<(), CompliFiError>)
    ensures
        r is Ok,
        final(ctx).authority == old(ctx).authority,
        final(ctx).policy.authority == old(ctx).authority,
        final(ctx).policy.max_risk_score == DEFAULT_MAX_RISK_SCORE,
        final(ctx).policy.require_kyc,
        final(ctx).policy.allowed_jurisdictions@ == Seq::new(10, |i: int| 0u8),
        final(ctx).policy.wf(),
{
    ctx.policy = CompliancePolicy {
        authority: ctx.authority,
        max_risk_score: DEFAULT_MAX_RISK_SCORE,
        require_kyc: true,
        allowed_jurisdictions: [0u8; 10],
    };
    assert(ctx.policy.allowed_jurisdictions@ =~= Seq::new(10, |i: int| 0u8));
    Ok(())
}

/// Writes the attestation for `wallet`, replacing any earlier one, with the
/// signer as issuer and `now` (the current unix time) as its timestamp.
pub fn create_kyc_attestation(
    ctx: &mut CreateKycAttestation,
    wallet: Address,
    is_verified: bool,
    jurisdiction: u8,
    now: i64,
) -> (r: Result<KycAttestationEvent, CompliFiError>)
    ensures
        r == Ok::<KycAttestationEvent, CompliFiError>(
            KycAttestationEvent { wallet, is_verified, jurisdiction },
        ),
        final(ctx).authority == old(ctx).authority,
        final(ctx).wallet == old(ctx).wallet,
        final(ctx).attestation == (KycAttestation {
            wallet,
            is_verified,
            authority: old(ctx).authority,
            timestamp: now,
            jurisdiction,
        }),
{
    ctx.attestation = KycAttestation {
        wallet,
        is_verified,
        authority: ctx.authority,
        timestamp: now,
        jurisdiction,
    };
    Ok(KycAttestationEvent { wallet, is_verified, jurisdiction })
}

/// Evaluates `user`'s `action` against the policy, with `risk_score` the
/// oracle's answer for `user` (`None` when the oracle failed). The policy must
/// belong to the owner of the counters. On a pass the verification counter
/// grows by one; on any failure nothing changes.
pub fn verify_compliance(
    ctx: &mut VerifyCompliance,
    user: Address,
    action: String,
    risk_score: Option<u8>,
) -> (r: Result<VerificationEvent, CompliFiError>)
    ensures
        final(ctx).policy == old(ctx).policy,
        final(ctx).authority == old(ctx).authority,
        final(ctx).attestation == old(ctx).attestation,
        match verification_outcome(
            old(ctx).state,
            old(ctx).policy,
            user,
            old(ctx).attestation,
            risk_score,
        ) {
            Err(e) => {
                &&& r == Err::<VerificationEvent, CompliFiError>(e)
                &&& final(ctx).state == old(ctx).state
            },
            Ok((s, next)) => {
                &&& r == Ok::<VerificationEvent, CompliFiError>(
                    VerificationEvent { user, action, verified: true, risk_score: s },
                )
                &&& final(ctx).state == next
            },
        },
{
    if !(ctx.policy.authority == ctx.state.authority) {
        return Err(CompliFiError::Unauthorized);
    }
    let score = match evaluate(&ctx.policy, &user, &ctx.attestation, risk_score) {
        Err(e) => {
            return Err(e);
        },
        Ok(s) => s,
    };
    let count = match ctx.state.verification_count.checked_add(1) {
        None => {
            return Err(CompliFiError::CounterOverflow);
        },
        Some(c) => c,
    };
    ctx.state.verification_count = count;
    Ok(VerificationEvent { user, action, verified: true, risk_score: score })
}

/// Replaces the policy's threshold, identity requirement and allow-bitmap
/// together. Only the policy's owner may do so, and only with a threshold of
/// at most 10; otherwise the policy is left as it was.
pub fn set_policy(
    ctx: &mut SetPolicy,
    max_risk_score: u8,
    require_kyc: bool,
    allowed_jurisdictions: [u8; 10],
) -> (r: Result<(), CompliFiError>)
    ensures
        final(ctx).authority == old(ctx).authority,
        old(ctx).policy.authority@ != old(ctx).authority@ ==> r == Err::<(), CompliFiError>(
            CompliFiError::Unauthorized,
        ),
        old(ctx).policy.authority@ == old(ctx).authority@ && max_risk_score > MAX_RISK_THRESHOLD
            ==> r == Err::<(), CompliFiError>(CompliFiError::InvalidPolicyParameters),
        old(ctx).policy.authority@ == old(ctx).authority@ && max_risk_score <= MAX_RISK_THRESHOLD
            ==> r is Ok,
        r is Ok ==> final(ctx).policy == (CompliancePolicy {
            authority: old(ctx).policy.authority,
            max_risk_score,
            require_kyc,
            allowed_jurisdictions,
        }),
        r is Err ==> final(ctx).policy == old(ctx).policy,
        old(ctx).policy.wf() ==> final(ctx).policy.wf(),
{
    if !(ctx.policy.authority == ctx.authority) {
        return Err(CompliFiError::Unauthorized);
    }
    if max_risk_score > MAX_RISK_THRESHOLD {
        return Err(CompliFiError::InvalidPolicyParameters);
    }
    ctx.policy.max_risk_score = max_risk_score;
    ctx.policy.require_kyc = require_kyc;
    ctx.policy.allowed_jurisdictions = allowed_jurisdictions;
    Ok(())
}

/// Records a violation by `user` for `reason`. Only the owner of the counters
/// may do so; the violation counter then grows by one. On any failure
/// nothing changes.
pub fn record_violation(
    ctx: &mut RecordViolation,
    user: Address,
    reason: String,
) -> (r: Result<ViolationEvent, CompliFiError>)
    ensures
        final(ctx).authority == old(ctx).authority,
        match violation_outcome(old(ctx).state, old(ctx).authority) {
            Err(e) => {
                &&& r == Err::<ViolationEvent, CompliFiError>(e)
                &&& final(ctx).state == old(ctx).state
            },
            Ok(next) => {
                &&& r == Ok::<ViolationEvent, CompliFiError>(ViolationEvent { user, reason })
                &&& final(ctx).state == next
            },
        },
{
    if !(ctx.authority == ctx.state.authority) {
        return Err(CompliFiError::Unauthorized);
    }
    let count = match ctx.state.violation_count.checked_add(1) {
        None => {
            return Err(CompliFiError::CounterOverflow);
        },
        Some(c) => c,
    };
    ctx.state.violation_count = count;
    Ok(ViolationEvent { user, reason })
}

} // verus!
