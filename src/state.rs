use vstd::prelude::*;

verus! {

/// Number of bytes in the jurisdiction allow-bitmap.
pub const JURISDICTION_BYTES: usize = 10;

/// Highest risk threshold a policy may carry.
pub const MAX_RISK_THRESHOLD: u8 = 10;

/// A 32-byte public identifier of a wallet or an authority.
#[derive(Clone, Copy, Debug)]
pub struct Address {
    pub bytes: [u8; 32],
}

impl View for Address {
    type V = Seq<u8>;

    open spec fn view(&self) -> Seq<u8> {
        self.bytes@
    }
}

impl Address {
    pub fn new(bytes: [u8; 32]) -> (r: Address)
        ensures
            r@ == bytes@,
    {
        Address { bytes }
    }

    pub fn to_bytes(&self) -> (r: [u8; 32])
        ensures
            r@ == self@,
    {
        self.bytes
    }
}

impl PartialEq for Address {
    fn eq(&self, other: &Address) -> (r: bool) {
        let mut i: usize = 0;
        while i < 32
            invariant
                i <= 32,
                self@.len() == 32,
                other@.len() == 32,
                forall|k: int| 0 <= k < i ==> self@[k] == other@[k],
            decreases 32 - i,
        {
            if self.bytes[i] != other.bytes[i] {
                return false;
            }
            i = i + 1;
        }
        assert(self@ =~= other@);
        true
    }
}

impl vstd::std_specs::cmp::PartialEqSpecImpl for Address {
    open spec fn obeys_eq_spec() -> bool {
        true
    }

    open spec fn eq_spec(&self, other: &Address) -> bool {
        self@ == other@
    }
}

impl Eq for Address {}

/// Deployment-wide audit counters.
#[derive(Clone, Copy, Debug, PartialEq, Eq)]
pub struct ComplianceState {
    pub authority: Address,
    pub verification_count: u64,
    pub violation_count: u64,
}

/// Administrator-controlled thresholds for evaluation.
#[derive(Clone, Copy, Debug, PartialEq, Eq)]
pub struct CompliancePolicy {
    pub authority: Address,
    pub max_risk_score: u8,
    pub require_kyc: bool,
    /// Bit `j % 8` of byte `j / 8` set means jurisdiction `j` is permitted.
    pub allowed_jurisdictions: [u8; 10],
}

impl CompliancePolicy {
    /// The threshold stays within the range a policy may carry.
    pub open spec fn wf(&self) -> bool {
        self.max_risk_score <= MAX_RISK_THRESHOLD
    }
}

/// Identity and jurisdiction of one wallet, as written by an issuer.
#[derive(Clone, Copy, Debug, PartialEq, Eq)]
pub struct KycAttestation {
    pub wallet: Address,
    pub is_verified: bool,
    pub authority: Address,
    pub timestamp: i64,
    pub jurisdiction: u8,
}

/// Emitted when an evaluation passes.
#[derive(Clone, Debug, PartialEq, Eq)]
pub struct VerificationEvent {
    pub user: Address,
    pub action: String,
    pub verified: bool,
    pub risk_score: u8,
}

/// Emitted when a violation is recorded.
#[derive(Clone, Debug, PartialEq, Eq)]
pub struct ViolationEvent {
    pub user: Address,
    pub reason: String,
}

/// Emitted when an attestation is written.
#[derive(Clone, Copy, Debug, PartialEq, Eq)]
pub struct KycAttestationEvent {
    pub wallet: Address,
    pub is_verified: bool,
    pub jurisdiction: u8,
}

} // verus!
