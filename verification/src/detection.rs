//! What a static scan found in an image, as recorded by the scan pipeline,
//! kept in the static result cache and shown to the GUI.

use vstd::prelude::*;

verus! {

/// A known-bad hash found in the signature database.
#[derive(Debug, Clone)]
pub struct SignatureMatch {
    pub hash: String,
    pub verdict_score: i32,
    pub metadata: String,
}

/// The Authenticode status of an image and the score it contributed.
#[derive(Debug, Clone)]
pub struct AuthenticodeInfo {
    pub is_signed: bool,
    pub is_trusted: bool,
    pub is_revoked: bool,
    pub signer: Option<String>,
    pub score_modifier: i32,
}

/// What the heuristic stage reported and the score it contributed.
#[derive(Debug, Clone)]
pub struct HeuristicResults {
    pub is_packed: bool,
    pub packer_name: Option<String>,
    pub has_rwx_sections: bool,
    pub high_entropy: bool,
    pub imphash: Option<String>,
    pub score_modifier: i32,
}

/// A malicious prediction of the classifier. The probability is kept as the
/// bit pattern of its `f32` value.
#[derive(Debug, Clone, Copy, PartialEq, Eq, Structural)]
pub struct MlPrediction {
    pub probability_bits: u32,
    pub score_modifier: i32,
}

/// Everything a scan found in an image, with its total threat score.
#[derive(Debug, Clone)]
pub struct DetectionDetails {
    pub threat_score: i32,
    pub md5_hash: Option<String>,
    pub signature_match: Option<SignatureMatch>,
    pub authenticode: Option<AuthenticodeInfo>,
    pub heuristics: Option<HeuristicResults>,
    pub ml_prediction: Option<MlPrediction>,
}

/// The decision sent for a process.
#[derive(Debug, Clone, Copy, PartialEq, Eq, Structural)]
pub enum Verdict {
    Allowed,
    Blocked,
    SystemAllowed,
}

/// The kind of indicator a signature database row holds.
#[derive(Debug, Clone, Copy, PartialEq, Eq, Structural)]
pub enum IocType {
    Md5Hash,
    Unknown,
}

/// One row of the signature database.
#[derive(Debug, Clone)]
pub struct SignatureRecord {
    pub hash: String,
    pub ioc_type: IocType,
    /// Score between 0 and 100; 100 is known bad.
    pub verdict: i32,
    pub meta: String,
}

/// The indicator kind stored as `code` in the database: 0 is an MD5 hash,
/// anything else is unknown.
pub fn ioc_type_of(code: i32) -> (r: IocType)
    ensures
        r == (if code == 0 {
            IocType::Md5Hash
        } else {
            IocType::Unknown
        }),
{
    if code == 0 {
        IocType::Md5Hash
    } else {
        IocType::Unknown
    }
}

/// The Authenticode verdict on a file.
#[derive(Debug, Clone)]
pub struct SignatureStatus {
    pub is_signed: bool,
    pub is_trusted: bool,
    pub signer: Option<String>,
    pub is_revoked: bool,
}

/// `WinVerifyTrust` result meaning the file carries no signature.
pub const TRUST_E_NOSIGNATURE: u32 = 0x800B_0100;

/// `WinVerifyTrust` result meaning a certificate in the chain was revoked.
pub const CERT_E_REVOKED: u32 = 0x800B_010C;

/// Whether a `WinVerifyTrust` result means the file is signed at all.
pub open spec fn trust_code_signed(status: i32) -> bool {
    status as u32 != TRUST_E_NOSIGNATURE
}

impl SignatureStatus {
    /// Reads the result of `WinVerifyTrust`: trusted when it is zero, signed
    /// unless it says there is no signature, revoked when it says so. The
    /// signer is kept only for a signed file.
    pub fn from_trust_result(status: i32, signer: Option<String>) -> (r: SignatureStatus)
        ensures
            r.is_trusted == (status == 0),
            r.is_signed == trust_code_signed(status),
            r.is_revoked == (status as u32 == CERT_E_REVOKED),
            r.signer == (if trust_code_signed(status) {
                signer
            } else {
                None
            }),
    {
        let code = status as u32;
        let is_signed = code != TRUST_E_NOSIGNATURE;
        SignatureStatus {
            is_signed,
            is_trusted: status == 0,
            signer: if is_signed {
                signer
            } else {
                None
            },
            is_revoked: code == CERT_E_REVOKED,
        }
    }
}

/// A copy of an optional string.
fn dup_opt_string(o: &Option<String>) -> (r: Option<String>)
    ensures
        r == *o,
{
    match o {
        Some(s) => Some(s.clone()),
        None => None,
    }
}

impl SignatureMatch {
    /// A copy of this match.
    pub fn duplicate(&self) -> (r: SignatureMatch)
        ensures
            r == *self,
    {
        SignatureMatch {
            hash: self.hash.clone(),
            verdict_score: self.verdict_score,
            metadata: self.metadata.clone(),
        }
    }
}

impl AuthenticodeInfo {
    /// A copy of this status.
    pub fn duplicate(&self) -> (r: AuthenticodeInfo)
        ensures
            r == *self,
    {
        AuthenticodeInfo {
            is_signed: self.is_signed,
            is_trusted: self.is_trusted,
            is_revoked: self.is_revoked,
            signer: dup_opt_string(&self.signer),
            score_modifier: self.score_modifier,
        }
    }
}

impl HeuristicResults {
    /// A copy of these results.
    pub fn duplicate(&self) -> (r: HeuristicResults)
        ensures
            r == *self,
    {
        HeuristicResults {
            is_packed: self.is_packed,
            packer_name: dup_opt_string(&self.packer_name),
            has_rwx_sections: self.has_rwx_sections,
            high_entropy: self.high_entropy,
            imphash: dup_opt_string(&self.imphash),
            score_modifier: self.score_modifier,
        }
    }
}

/// The details of a process that was not scanned: no score and no findings.
pub open spec fn no_findings() -> DetectionDetails {
    DetectionDetails {
        threat_score: 0,
        md5_hash: None,
        signature_match: None,
        authenticode: None,
        heuristics: None,
        ml_prediction: None,
    }
}

impl DetectionDetails {
    /// Details of a process that was not scanned: no score and no findings.
    pub fn empty() -> (r: DetectionDetails)
        ensures
            r == no_findings(),
    {
        DetectionDetails {
            threat_score: 0,
            md5_hash: None,
            signature_match: None,
            authenticode: None,
            heuristics: None,
            ml_prediction: None,
        }
    }

    /// A copy of these details.
    pub fn duplicate(&self) -> (r: DetectionDetails)
        ensures
            r == *self,
    {
        DetectionDetails {
            threat_score: self.threat_score,
            md5_hash: dup_opt_string(&self.md5_hash),
            signature_match: match &self.signature_match {
                Some(m) => Some(m.duplicate()),
                None => None,
            },
            authenticode: match &self.authenticode {
                Some(a) => Some(a.duplicate()),
                None => None,
            },
            heuristics: match &self.heuristics {
                Some(h) => Some(h.duplicate()),
                None => None,
            },
            ml_prediction: self.ml_prediction,
        }
    }
}

} // verus!
