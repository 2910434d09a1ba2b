use complifi::{
    create_kyc_attestation, evaluate, initialize, initialize_policy, jurisdiction_allowed,
    record_violation, set_policy, verify_compliance, Address, CompliFiError, CompliancePolicy,
    ComplianceState, CreateKycAttestation, Initialize, InitializePolicy, KycAttestation,
    KycAttestationEvent, RecordViolation, SetPolicy, VerificationEvent, VerifyCompliance,
    ViolationEvent, DEFAULT_MAX_RISK_SCORE,
};

fn addr(b: u8) -> Address {
    Address::new([b; 32])
}

fn bitmap_with(bits: &[u8]) -> [u8; 10] {
    let mut m = [0u8; 10];
    for &j in bits {
        m[(j / 8) as usize] |= 1 << (j % 8);
    }
    m
}

fn state(authority: Address) -> ComplianceState {
    ComplianceState { authority, verification_count: 0, violation_count: 0 }
}

fn policy(authority: Address, require_kyc: bool, max_risk_score: u8, bits: &[u8]) -> CompliancePolicy {
    CompliancePolicy {
        authority,
        max_risk_score,
        require_kyc,
        allowed_jurisdictions: bitmap_with(bits),
    }
}

fn attestation(wallet: Address, is_verified: bool, jurisdiction: u8) -> KycAttestation {
    KycAttestation { wallet, is_verified, authority: addr(9), timestamp: 1_700_000_000, jurisdiction }
}

fn scenario_ctx(jurisdiction: u8) -> VerifyCompliance {
    let admin = addr(1);
    VerifyCompliance {
        state: state(admin),
        policy: policy(admin, true, 3, &[1]),
        authority: admin,
        attestation: Some(attestation(addr(2), true, jurisdiction)),
    }
}

#[test]
fn scenario_a_passes_and_counts() {
    let mut ctx = scenario_ctx(1);
    let r = verify_compliance(&mut ctx, addr(2), "swap".to_string(), Some(2));
    assert_eq!(
        r,
        Ok(VerificationEvent { user: addr(2), action: "swap".to_string(), verified: true, risk_score: 2 })
    );
    assert_eq!(ctx.state.verification_count, 1);
    assert_eq!(ctx.state.violation_count, 0);
}

#[test]
fn scenario_b_restricted_jurisdiction() {
    let mut ctx = scenario_ctx(2);
    let r = verify_compliance(&mut ctx, addr(2), "swap".to_string(), Some(2));
    assert_eq!(r, Err(CompliFiError::RestrictedJurisdiction));
    assert_eq!(ctx.state.verification_count, 0);
}

#[test]
fn scenario_c_risk_score_too_high() {
    let mut ctx = scenario_ctx(1);
    let r = verify_compliance(&mut ctx, addr(2), "swap".to_string(), Some(5));
    assert_eq!(r, Err(CompliFiError::RiskScoreTooHigh));
    assert_eq!(ctx.state.verification_count, 0);
}

#[test]
fn scenario_d_threshold_above_ten_rejected() {
    let admin = addr(1);
    let before = policy(admin, true, 3, &[1]);
    let mut ctx = SetPolicy { policy: before, authority: admin };
    let r = set_policy(&mut ctx, 11, false, bitmap_with(&[4]));
    assert_eq!(r, Err(CompliFiError::InvalidPolicyParameters));
    assert_eq!(ctx.policy, before);
}

#[test]
fn scenario_e_violation_by_stranger_rejected() {
    let mut ctx = RecordViolation {
        state: ComplianceState { authority: addr(1), verification_count: 4, violation_count: 7 },
        authority: addr(3),
    };
    let r = record_violation(&mut ctx, addr(2), "wash trading".to_string());
    assert_eq!(r, Err(CompliFiError::Unauthorized));
    assert_eq!(ctx.state.violation_count, 7);
    assert_eq!(ctx.state.verification_count, 4);
}

#[test]
fn missing_attestation_rejected_without_counting() {
    let mut ctx = scenario_ctx(1);
    ctx.attestation = None;
    let r = verify_compliance(&mut ctx, addr(2), "swap".to_string(), Some(0));
    assert_eq!(r, Err(CompliFiError::KycNotVerified));
    assert_eq!(ctx.state, state(addr(1)));
}

#[test]
fn unverified_attestation_rejected_whatever_else() {
    for (jurisdiction, score) in [(1u8, 0u8), (2, 2), (200, 9)] {
        let mut ctx = scenario_ctx(jurisdiction);
        ctx.attestation = Some(attestation(addr(2), false, jurisdiction));
        let r = verify_compliance(&mut ctx, addr(2), "mint".to_string(), Some(score));
        assert_eq!(r, Err(CompliFiError::KycNotVerified));
        assert_eq!(ctx.state.verification_count, 0);
    }
}

#[test]
fn attestation_of_other_wallet_rejected() {
    let mut ctx = scenario_ctx(1);
    let r = verify_compliance(&mut ctx, addr(5), "swap".to_string(), Some(1));
    assert_eq!(r, Err(CompliFiError::KycNotVerified));
}

#[test]
fn jurisdiction_bits_follow_bitmap() {
    let m = bitmap_with(&[0, 9, 79]);
    assert!(jurisdiction_allowed(&m, 0));
    assert!(jurisdiction_allowed(&m, 9));
    assert!(jurisdiction_allowed(&m, 79));
    assert!(!jurisdiction_allowed(&m, 1));
    assert!(!jurisdiction_allowed(&m, 8));
    assert!(!jurisdiction_allowed(&m, 78));
}

#[test]
fn jurisdiction_past_bitmap_always_restricted() {
    let all = [0xffu8; 10];
    assert!(jurisdiction_allowed(&all, 79));
    assert!(!jurisdiction_allowed(&all, 80));
    assert!(!jurisdiction_allowed(&all, 255));
    let admin = addr(1);
    let p = CompliancePolicy { authority: admin, max_risk_score: 10, require_kyc: true, allowed_jurisdictions: all };
    let att = Some(attestation(addr(2), true, 80));
    assert_eq!(evaluate(&p, &addr(2), &att, Some(0)), Err(CompliFiError::RestrictedJurisdiction));
}

#[test]
fn risk_threshold_is_inclusive() {
    let mut ctx = scenario_ctx(1);
    let r = verify_compliance(&mut ctx, addr(2), "swap".to_string(), Some(3));
    assert!(r.is_ok());
    assert_eq!(ctx.state.verification_count, 1);
    let r = verify_compliance(&mut ctx, addr(2), "swap".to_string(), Some(4));
    assert_eq!(r, Err(CompliFiError::RiskScoreTooHigh));
    assert_eq!(ctx.state.verification_count, 1);
}

#[test]
fn oracle_failure_is_its_own_error() {
    let mut ctx = scenario_ctx(1);
    let r = verify_compliance(&mut ctx, addr(2), "swap".to_string(), None);
    assert_eq!(r, Err(CompliFiError::OracleDataFetchFailed));
    assert_eq!(ctx.state.verification_count, 0);
}

#[test]
fn identity_checks_come_before_the_oracle() {
    let mut ctx = scenario_ctx(2);
    let r = verify_compliance(&mut ctx, addr(2), "swap".to_string(), None);
    assert_eq!(r, Err(CompliFiError::RestrictedJurisdiction));
}

#[test]
fn policy_without_kyc_ignores_attestation() {
    let admin = addr(1);
    let mut ctx = VerifyCompliance {
        state: state(admin),
        policy: policy(admin, false, 5, &[]),
        authority: admin,
        attestation: None,
    };
    let r = verify_compliance(&mut ctx, addr(2), "transfer".to_string(), Some(5));
    assert_eq!(r.map(|e| e.risk_score), Ok(5));
    assert_eq!(ctx.state.verification_count, 1);
}

#[test]
fn policy_of_other_owner_is_unauthorized() {
    let mut ctx = scenario_ctx(1);
    ctx.policy.authority = addr(7);
    let r = verify_compliance(&mut ctx, addr(2), "swap".to_string(), Some(2));
    assert_eq!(r, Err(CompliFiError::Unauthorized));
    assert_eq!(ctx.state.verification_count, 0);
}

#[test]
fn verification_counter_overflow_is_signalled() {
    let mut ctx = scenario_ctx(1);
    ctx.state.verification_count = u64::MAX;
    let r = verify_compliance(&mut ctx, addr(2), "swap".to_string(), Some(2));
    assert_eq!(r, Err(CompliFiError::CounterOverflow));
    assert_eq!(ctx.state.verification_count, u64::MAX);
}

#[test]
fn violation_counter_overflow_is_signalled() {
    let admin = addr(1);
    let mut ctx = RecordViolation {
        state: ComplianceState { authority: admin, verification_count: 0, violation_count: u64::MAX },
        authority: admin,
    };
    let r = record_violation(&mut ctx, addr(2), "late report".to_string());
    assert_eq!(r, Err(CompliFiError::CounterOverflow));
    assert_eq!(ctx.state.violation_count, u64::MAX);
}

#[test]
fn counters_rise_by_one_per_success() {
    let admin = addr(1);
    let mut v = scenario_ctx(1);
    for n in 1..=3u64 {
        verify_compliance(&mut v, addr(2), "swap".to_string(), Some(1)).unwrap();
        assert_eq!(v.state.verification_count, n);
        assert_eq!(v.state.violation_count, 0);
    }
    let mut r = RecordViolation { state: v.state, authority: admin };
    let ev = record_violation(&mut r, addr(2), "sanctions hit".to_string());
    assert_eq!(ev, Ok(ViolationEvent { user: addr(2), reason: "sanctions hit".to_string() }));
    assert_eq!(r.state.violation_count, 1);
    assert_eq!(r.state.verification_count, 3);
}

#[test]
fn set_policy_by_owner_replaces_fields() {
    let admin = addr(1);
    let mut ctx = SetPolicy { policy: policy(admin, true, 3, &[]), authority: admin };
    let m = bitmap_with(&[5, 42]);
    assert_eq!(set_policy(&mut ctx, 10, false, m), Ok(()));
    assert_eq!(ctx.policy, CompliancePolicy { authority: admin, max_risk_score: 10, require_kyc: false, allowed_jurisdictions: m });
}

#[test]
fn set_policy_by_stranger_is_unauthorized() {
    let before = policy(addr(1), true, 3, &[]);
    let mut ctx = SetPolicy { policy: before, authority: addr(4) };
    assert_eq!(set_policy(&mut ctx, 2, false, [0xff; 10]), Err(CompliFiError::Unauthorized));
    assert_eq!(ctx.policy, before);
}

#[test]
fn initialize_zeroes_counters() {
    let mut ctx = Initialize {
        state: ComplianceState { authority: addr(0), verification_count: 8, violation_count: 9 },
        authority: addr(1),
    };
    assert_eq!(initialize(&mut ctx), Ok(()));
    assert_eq!(ctx.state, state(addr(1)));
}

#[test]
fn initialize_policy_defaults() {
    let mut ctx = InitializePolicy { policy: policy(addr(0), false, 10, &[3]), authority: addr(1) };
    assert_eq!(initialize_policy(&mut ctx), Ok(()));
    assert_eq!(ctx.policy, CompliancePolicy { authority: addr(1), max_risk_score: DEFAULT_MAX_RISK_SCORE, require_kyc: true, allowed_jurisdictions: [0; 10] });
    assert_eq!(ctx.policy.max_risk_score, 3);
}

#[test]
fn attestation_is_upserted() {
    let mut ctx = CreateKycAttestation {
        attestation: attestation(addr(2), false, 0),
        authority: addr(6),
        wallet: addr(2),
    };
    let ev = create_kyc_attestation(&mut ctx, addr(2), true, 17, 1_800_000_000);
    assert_eq!(ev, Ok(KycAttestationEvent { wallet: addr(2), is_verified: true, jurisdiction: 17 }));
    assert_eq!(
        ctx.attestation,
        KycAttestation { wallet: addr(2), is_verified: true, authority: addr(6), timestamp: 1_800_000_000, jurisdiction: 17 }
    );
}

#[test]
fn address_equality_is_bytewise() {
    let mut b = [3u8; 32];
    assert_eq!(Address::new(b), addr(3));
    b[31] = 4;
    assert_ne!(Address::new(b), addr(3));
    assert_eq!(Address::new(b).to_bytes(), b);
}
