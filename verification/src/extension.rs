//! The ZK-PoX extension of mesh ADVERTISE messages: formatting a proof
//! into the extension payload, and checking a received one.
use vstd::prelude::*;
use crate::crypto::{sha256, sha256_spec};

verus! {

/// The lower-case hexadecimal digit of a value below 16.
pub open spec fn hex_digit(v: int) -> char {
    if v < 10 {
        (48 + v) as char
    } else {
        (97 + v - 10) as char
    }
}

/// Lower-case hexadecimal encoding, two digits per byte, high nibble
/// first.
pub open spec fn hex_lower(bytes: Seq<u8>) -> Seq<char> {
    Seq::new(
        2 * bytes.len(),
        |k: int|
            if k % 2 == 0 {
                hex_digit((bytes[k / 2] as int) / 16)
            } else {
                hex_digit((bytes[k / 2] as int) % 16)
            },
    )
}

/// The character of a 6-bit value in the standard base64 alphabet
/// (RFC 4648, section 4).
pub open spec fn b64_char(v: int) -> char {
    if v < 26 {
        (65 + v) as char
    } else if v < 52 {
        (97 + v - 26) as char
    } else if v < 62 {
        (48 + v - 52) as char
    } else if v == 62 {
        '+'
    } else {
        '/'
    }
}

/// Standard base64 encoding with `=` padding (RFC 4648, section 4): each
/// group of three bytes gives four characters; a final group of one or two
/// bytes is padded.
pub open spec fn base64_standard(b: Seq<u8>) -> Seq<char>
    decreases b.len(),
{
    if b.len() == 0 {
        Seq::empty()
    } else if b.len() == 1 {
        seq![b64_char((b[0] as int) / 4), b64_char(((b[0] as int) % 4) * 16), '=', '=']
    } else if b.len() == 2 {
        seq![
            b64_char((b[0] as int) / 4),
            b64_char(((b[0] as int) % 4) * 16 + (b[1] as int) / 16),
            b64_char(((b[1] as int) % 16) * 4),
            '=',
        ]
    } else {
        seq![
            b64_char((b[0] as int) / 4),
            b64_char(((b[0] as int) % 4) * 16 + (b[1] as int) / 16),
            b64_char(((b[1] as int) % 16) * 4 + (b[2] as int) / 64),
            b64_char((b[2] as int) % 64),
        ] + base64_standard(b.skip(3))
    }
}

/// `hex::encode`: lower-case hexadecimal, two digits per byte, as the
/// crate documents it.
#[verifier::external_body]
pub(crate) fn hex_encode(bytes: &[u8]) -> (s: String)
    ensures
        s@ == hex_lower(bytes@),
{
    hex::encode(bytes)
}

/// `base64::engine::general_purpose::STANDARD.encode`: standard alphabet
/// with padding, as the crate documents it.
#[verifier::external_body]
pub(crate) fn base64_encode(bytes: &[u8]) -> (s: String)
    ensures
        s@ == base64_standard(bytes@),
{
    base64::Engine::encode(&base64::engine::general_purpose::STANDARD, bytes)
}

/// The extension payload that goes into `ADVERTISE.extensions.zk_pox`.
#[derive(Debug, Clone)]
pub struct ZkPoxExtension {
    /// Claim type: "RESIDENCY", "ATTENDANCE", "STABILITY", etc.
    pub proof_type: String,
    /// Geofence radius used in the proof.
    pub radius_m: u32,
    /// Time window in days.
    pub time_window_days: u32,
    /// Number of GPS points proven.
    pub count_proven: u32,
    /// SHA-256 hash of the Bulletproof bytes (hex).
    pub proof_hash: String,
    /// Base64-encoded Bulletproof bytes.
    pub proof_bytes_b64: String,
    /// Base64-encoded Pedersen commitments.
    pub commitments_b64: String,
    /// SHA-256 hash of the committed center position (hex).
    pub center_hash: String,
}

/// Format a proof result into an extension payload: the proof is hashed
/// and both proof and commitments are base64-encoded.
pub fn format_extension(
    claim_type_str: &str,
    radius_m: u32,
    time_window_days: u32,
    count_proven: u32,
    proof_bytes: &[u8],
    commitments: &[u8],
    center_hash: &[u8; 32],
) -> (ext: ZkPoxExtension)
    ensures
        ext.proof_type@ == claim_type_str@,
        ext.radius_m == radius_m,
        ext.time_window_days == time_window_days,
        ext.count_proven == count_proven,
        ext.proof_hash@ == hex_lower(sha256_spec(proof_bytes@)),
        ext.proof_bytes_b64@ == base64_standard(proof_bytes@),
        ext.commitments_b64@ == base64_standard(commitments@),
        ext.center_hash@ == hex_lower(center_hash@),
{
    let p_hash = sha256(proof_bytes);
    ZkPoxExtension {
        proof_type: claim_type_str.to_owned(),
        radius_m,
        time_window_days,
        count_proven,
        proof_hash: hex_encode(&p_hash),
        proof_bytes_b64: base64_encode(proof_bytes),
        commitments_b64: base64_encode(commitments),
        center_hash: hex_encode(center_hash),
    }
}

/// The fields of a received `extensions.zk_pox` object that verification
/// reads. A field is `None` when it is absent or not of the expected JSON
/// kind (a string, or a non-negative integer that fits a `u64`).
#[derive(Debug, Clone)]
pub struct ZkPoxFields {
    pub proof_type: Option<String>,
    pub count_proven: Option<u64>,
    pub time_window_days: Option<u64>,
    pub proof_bytes_b64: Option<String>,
    pub commitments_b64: Option<String>,
}

/// A received ADVERTISE payload, as far as the ZK-PoX extension goes:
/// `zk_pox` is `None` when `extensions.zk_pox` is absent.
#[derive(Debug, Clone)]
pub struct AdvertisePayload {
    pub zk_pox: Option<ZkPoxFields>,
}

/// Result of checking a ZK-PoX extension from an ADVERTISE message.
#[derive(Debug)]
pub enum ExtensionVerifyResult {
    /// No zk_pox extension present: not a ZK-PoX agent.
    NotPresent,
    /// Extension present but malformed.
    Malformed(String),
    /// The extension is well formed.
    Valid { proof_type: String, count_proven: u32, time_window_days: u32 },
    /// Proof present but cryptographically invalid.
    Invalid(String),
}

/// Whether an ADVERTISE payload carries a ZK-PoX extension.
pub fn has_zkpox_extension(advertise: &AdvertisePayload) -> (r: bool)
    ensures
        r == (advertise.zk_pox is Some),
{
    advertise.zk_pox.is_some()
}

/// Check the ZK-PoX extension of an ADVERTISE payload.
///
/// The extension is structurally validated: every field must be present,
/// checked in the order proof type, count, time window, proof bytes,
/// commitments; the first missing one is reported. The counts are
/// truncated to 32 bits.
pub fn verify_extension(advertise: &AdvertisePayload) -> (r: ExtensionVerifyResult)
    ensures
        advertise.zk_pox is None ==> r is NotPresent,
        advertise.zk_pox matches Some(f) ==> {
            &&& f.proof_type is None ==> (r matches ExtensionVerifyResult::Malformed(m) && m@
                == "missing proof_type"@)
            &&& f.proof_type is Some && f.count_proven is None ==> (r matches ExtensionVerifyResult::Malformed(m) && m@
                == "missing count_proven"@)
            &&& f.proof_type is Some && f.count_proven is Some && f.time_window_days is None
                ==> (r matches ExtensionVerifyResult::Malformed(m) && m@ == "missing time_window_days"@)
            &&& f.proof_type is Some && f.count_proven is Some && f.time_window_days is Some
                && f.proof_bytes_b64 is None ==> (r matches ExtensionVerifyResult::Malformed(m) && m@
                == "missing proof_bytes_b64"@)
            &&& f.proof_type is Some && f.count_proven is Some && f.time_window_days is Some
                && f.proof_bytes_b64 is Some && f.commitments_b64 is None ==> (
            r matches ExtensionVerifyResult::Malformed(m) && m@ == "missing commitments_b64"@)
            &&& f.proof_type is Some && f.count_proven is Some && f.time_window_days is Some
                && f.proof_bytes_b64 is Some && f.commitments_b64 is Some ==> (
            r matches ExtensionVerifyResult::Valid { proof_type, count_proven, time_window_days }
                && proof_type@ == f.proof_type->0@ && count_proven == f.count_proven->0 as u32
                && time_window_days == f.time_window_days->0 as u32)
        },
{
    let f = match &advertise.zk_pox {
        Some(f) => f,
        None => {
            return ExtensionVerifyResult::NotPresent;
        },
    };
    let proof_type = match &f.proof_type {
        Some(s) => s.clone(),
        None => {
            return ExtensionVerifyResult::Malformed("missing proof_type".to_owned());
        },
    };
    let count_proven: u32 = match f.count_proven {
        Some(n) => {
            #[verifier::truncate]
            (n as u32)
        },
        None => {
            return ExtensionVerifyResult::Malformed("missing count_proven".to_owned());
        },
    };
    let time_window_days: u32 = match f.time_window_days {
        Some(n) => {
            #[verifier::truncate]
            (n as u32)
        },
        None => {
            return ExtensionVerifyResult::Malformed("missing time_window_days".to_owned());
        },
    };
    if f.proof_bytes_b64.is_none() {
        return ExtensionVerifyResult::Malformed("missing proof_bytes_b64".to_owned());
    }
    if f.commitments_b64.is_none() {
        return ExtensionVerifyResult::Malformed("missing commitments_b64".to_owned());
    }
    ExtensionVerifyResult::Valid { proof_type, count_proven, time_window_days }
}

} // verus!
