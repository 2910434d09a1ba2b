use vstd::prelude::*;

use crate::error::CompliFiError;
use crate::state::{Address, CompliancePolicy, KycAttestation, JURISDICTION_BYTES};

verus! {

/// Bit `j` of the allow-bitmap: bit `j % 8` of byte `j / 8`; codes past the
/// bitmap are never set.
pub open spec fn jurisdiction_bit_set(bitmap: Seq<u8>, j: int) -> bool {
    &&& 0 <= j < 8 * bitmap.len()
    &&& (bitmap[j / 8] >> ((j % 8) as u8)) & 1u8 == 1u8
}

/// The identity checks a policy demands: none without `require_kyc`; with it,
/// an attestation for exactly this wallet, verified, from a permitted
/// jurisdiction.
pub open spec fn kyc_verdict(
    policy: CompliancePolicy,
    user: Address,
    attestation: Option<KycAttestation>,
) -> Option<CompliFiError> {
    if !policy.require_kyc {
        None
    } else {
        match attestation {
            None => Some(CompliFiError::KycNotVerified),
            Some(a) => if a.wallet@ != user@ || !a.is_verified {
                Some(CompliFiError::KycNotVerified)
            } else if !jurisdiction_bit_set(policy.allowed_jurisdictions@, a.jurisdiction as int) {
                Some(CompliFiError::RestrictedJurisdiction)
            } else {
                None
            },
        }
    }
}

/// The decision of an evaluation: the identity checks first, then the
/// oracle's answer, then the threshold. On a pass, the accepted risk score.
pub open spec fn verdict(
    policy: CompliancePolicy,
    user: Address,
    attestation: Option<KycAttestation>,
    risk_score: Option<u8>,
) -> Result<u8, CompliFiError> {
    match kyc_verdict(policy, user, attestation) {
        Some(e) => Err(e),
        None => match risk_score {
            None => Err(CompliFiError::OracleDataFetchFailed),
            Some(s) => if s > policy.max_risk_score {
                Err(CompliFiError::RiskScoreTooHigh)
            } else {
                Ok(s)
            },
        },
    }
}

/// Whether the allow-bitmap permits jurisdiction code `jurisdiction`.
pub fn jurisdiction_allowed(bitmap: &[u8; 10], jurisdiction: u8) -> (r: bool)
    ensures
        r == jurisdiction_bit_set(bitmap@, jurisdiction as int),
{
    let index: usize = (jurisdiction / 8) as usize;
    let shift: u8 = jurisdiction % 8;
    let mask: u8 = 1u8 << shift;
    if index < JURISDICTION_BYTES {
        let byte: u8 = bitmap[index];
        assert((byte & (1u8 << shift) != 0) == ((byte >> shift) & 1u8 == 1u8)) by (bit_vector)
            requires
                shift < 8,
        ;
        byte & mask != 0
    } else {
        false
    }
}

/// Decides whether `user` may act under `policy`, given the attestation
/// resolved for it and the oracle's risk score (`None` when the oracle
/// failed). Returns the accepted risk score.
pub fn evaluate(
    policy: &CompliancePolicy,
    user: &Address,
    attestation: &Option<KycAttestation>,
    risk_score: Option<u8>,
) -> (r: Result<u8, CompliFiError>)
    ensures
        r == verdict(*policy, *user, *attestation, risk_score),
{
    if policy.require_kyc {
        match attestation {
            None => {
                return Err(CompliFiError::KycNotVerified);
            },
            Some(a) => {
                if !(a.wallet == *user) || !a.is_verified {
                    return Err(CompliFiError::KycNotVerified);
                }
                if !jurisdiction_allowed(&policy.allowed_jurisdictions, a.jurisdiction) {
                    return Err(CompliFiError::RestrictedJurisdiction);
                }
            },
        }
    }
    match risk_score {
        None => Err(CompliFiError::OracleDataFetchFailed),
        Some(s) => if s > policy.max_risk_score {
            Err(CompliFiError::RiskScoreTooHigh)
        } else {
            Ok(s)
        },
    }
}

} // verus!
