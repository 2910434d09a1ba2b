//! Compliance gate for wallet-initiated actions: identity attestations,
//! an administrator-controlled policy, and audit counters.

mod error;
mod state;
mod engine;
mod instructions;
pub mod laws;

pub use error::CompliFiError;
pub use state::{
    Address, CompliancePolicy, ComplianceState, KycAttestation, KycAttestationEvent,
    VerificationEvent, ViolationEvent, JURISDICTION_BYTES, MAX_RISK_THRESHOLD,
};
pub use engine::{evaluate, jurisdiction_allowed, jurisdiction_bit_set, kyc_verdict, verdict};
pub use instructions::{
    create_kyc_attestation, initialize, initialize_policy, record_violation, set_policy,
    verify_compliance, verification_outcome, violation_outcome, with_verification, with_violation, CreateKycAttestation, Initialize,
    InitializePolicy, RecordViolation, SetPolicy, VerifyCompliance, DEFAULT_MAX_RISK_SCORE,
};
