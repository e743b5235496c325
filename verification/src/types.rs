//! Data types shared by the prover, the verifier and the claim analyses.
//!
//! GPS coordinates never appear as floating-point numbers here. A point
//! carries the IEEE-754 bit patterns of its latitude and longitude (these
//! are what gets hashed and signed) together with the coordinates scaled by
//! `1e7` and truncated to integers (these are what the range proofs are
//! about). The caller derives both from the same `f64`.
use vstd::prelude::*;

verus! {

/// Supported claim types for ZK-PoX proofs.
#[derive(Debug, Clone, Copy, PartialEq, Eq, Hash, Structural)]
pub enum ClaimType {
    /// "I was near location H for N+ nights in period P"
    Residency,
    /// "I traveled between A and B, D days/week, for W weeks"
    Commute,
    /// "I was within R meters of E for T+ hours on date D"
    Attendance,
    /// "I was NOT within R meters of X during period P"
    Absence,
    /// "My location variance is below threshold T over period P"
    Stability,
    /// "I was in N distinct geographic regions during period P"
    Travel,
}

/// The wire code of a claim type (its position in the list above).
pub open spec fn claim_code(c: ClaimType) -> u8 {
    match c {
        ClaimType::Residency => 0,
        ClaimType::Commute => 1,
        ClaimType::Attendance => 2,
        ClaimType::Absence => 3,
        ClaimType::Stability => 4,
        ClaimType::Travel => 5,
    }
}

/// The claim type with a given wire code, if any.
pub open spec fn claim_from_code(v: u8) -> Option<ClaimType> {
    if v == 0 {
        Some(ClaimType::Residency)
    } else if v == 1 {
        Some(ClaimType::Commute)
    } else if v == 2 {
        Some(ClaimType::Attendance)
    } else if v == 3 {
        Some(ClaimType::Absence)
    } else if v == 4 {
        Some(ClaimType::Stability)
    } else if v == 5 {
        Some(ClaimType::Travel)
    } else {
        None
    }
}

/// The upper-case name of a claim type.
pub open spec fn claim_name(c: ClaimType) -> Seq<char> {
    match c {
        ClaimType::Residency => "RESIDENCY"@,
        ClaimType::Commute => "COMMUTE"@,
        ClaimType::Attendance => "ATTENDANCE"@,
        ClaimType::Absence => "ABSENCE"@,
        ClaimType::Stability => "STABILITY"@,
        ClaimType::Travel => "TRAVEL"@,
    }
}

impl ClaimType {
    /// The claim's upper-case name, e.g. `"RESIDENCY"`.
    pub fn as_str(&self) -> (s: &'static str)
        ensures
            s@ == claim_name(*self),
    {
        match self {
            ClaimType::Residency => "RESIDENCY",
            ClaimType::Commute => "COMMUTE",
            ClaimType::Attendance => "ATTENDANCE",
            ClaimType::Absence => "ABSENCE",
            ClaimType::Stability => "STABILITY",
            ClaimType::Travel => "TRAVEL",
        }
    }

    /// Decodes a wire code; codes above 5 have no claim type.
    pub fn from_u8(v: u8) -> (r: Option<ClaimType>)
        ensures
            r == claim_from_code(v),
            r is Some <==> v <= 5,
    {
        match v {
            0 => Some(ClaimType::Residency),
            1 => Some(ClaimType::Commute),
            2 => Some(ClaimType::Attendance),
            3 => Some(ClaimType::Absence),
            4 => Some(ClaimType::Stability),
            5 => Some(ClaimType::Travel),
            _ => None,
        }
    }

    /// The wire code of this claim type.
    pub fn to_u8(&self) -> (v: u8)
        ensures
            v == claim_code(*self),
    {
        match self {
            ClaimType::Residency => 0,
            ClaimType::Commute => 1,
            ClaimType::Attendance => 2,
            ClaimType::Absence => 3,
            ClaimType::Stability => 4,
            ClaimType::Travel => 5,
        }
    }
}

/// Decoding the wire code of a claim type gives the claim type back, and
/// exactly the codes 0 to 5 decode to a claim type, each to the one whose
/// code it is.
pub proof fn lemma_claim_code_roundtrip(c: ClaimType, v: u8)
    ensures
        claim_from_code(claim_code(c)) == Some(c),
        claim_code(c) <= 5,
        claim_from_code(v) is Some <==> v <= 5,
        claim_from_code(v) matches Some(d) ==> claim_code(d) == v,
{
}

/// A GPS fix recorded by the phone and signed with the agent's Ed25519 key.
/// The signature covers `SHA-256(lat_le_bytes || lng_le_bytes || timestamp_le_bytes)`
/// where the coordinate bytes are those of the `f64` values.
#[derive(Debug, Clone)]
pub struct SignedGPSPoint {
    /// IEEE-754 bits of the latitude (degrees).
    pub lat_bits: u64,
    /// IEEE-754 bits of the longitude (degrees).
    pub lng_bits: u64,
    /// Latitude times `1e7`, truncated toward zero (`(lat * 1e7) as i64`).
    pub lat_scaled: i64,
    /// Longitude times `1e7`, truncated toward zero.
    pub lng_scaled: i64,
    /// Unix timestamp in seconds.
    pub timestamp: i64,
    /// IEEE-754 bits of the reported horizontal accuracy (meters, `f32`).
    pub accuracy_bits: u32,
    /// Ed25519 signature bytes (64 bytes, or all zero when unsigned).
    pub signature: Vec<u8>,
}

/// An axis-aligned box in scaled coordinates (inclusive bounds).
#[derive(Debug, Clone, Copy, PartialEq, Eq, Structural)]
pub struct BoundingBox {
    pub lat_min: i64,
    pub lat_max: i64,
    pub lng_min: i64,
    pub lng_max: i64,
}

/// A request to generate a ZK proof from local GPS history.
#[derive(Debug, Clone)]
pub struct ProofRequest {
    pub claim_type: ClaimType,
    /// IEEE-754 bits of the geofence center latitude (private).
    pub center_lat_bits: u64,
    /// IEEE-754 bits of the geofence center longitude (private).
    pub center_lng_bits: u64,
    /// The scaled bounding box of the circular geofence around the center.
    pub bbox: BoundingBox,
    /// Geofence radius in meters.
    pub radius_m: u32,
    /// Start of the time window (unix timestamp, inclusive).
    pub time_start: i64,
    /// End of the time window (unix timestamp, inclusive).
    pub time_end: i64,
    /// Minimum number of qualifying points required for the claim to hold.
    pub min_count: u32,
    /// Only count points in nighttime hours (22:00 to 07:00 UTC).
    pub night_only: bool,
}

/// Public inputs revealed to the verifier together with the proof.
#[derive(Debug, Clone, Copy, PartialEq, Eq)]
pub struct PublicInputs {
    /// SHA-256 commitment to the center position (hides the location).
    pub center_hash: [u8; 32],
    /// Geofence radius in meters.
    pub radius_m: u32,
    /// Length of the time window in whole days.
    pub time_window_days: u32,
    /// Minimum number of qualifying points required by the claim.
    pub min_count: u32,
    /// Number of points covered by the range proof.
    pub count_proven: u32,
}

/// The result of proof generation.
#[derive(Debug, Clone)]
pub struct ProofResult {
    /// Serialized Bulletproof bytes.
    pub proof_bytes: Vec<u8>,
    /// Public inputs that accompany the proof.
    pub public_inputs: PublicInputs,
    /// Which claim type this proof covers.
    pub claim_type: ClaimType,
    /// Unix timestamp when the proof was generated.
    pub generated_at: i64,
    /// Number of raw GPS points that were evaluated.
    pub total_points_evaluated: u32,
    /// Compressed Pedersen commitments, 32 bytes each, one per proven value.
    pub commitments: Vec<u8>,
}

impl ProofResult {
    /// Number of points covered by the proof.
    pub fn count_proven(&self) -> (n: u32)
        ensures
            n == self.public_inputs.count_proven,
    {
        self.public_inputs.count_proven
    }
}

/// On-chain credential record, as kept off chain by the agent.
#[derive(Debug, Clone)]
pub struct ExperienceCredential {
    pub version: u8,
    pub agent_id: [u8; 32],
    pub claim_type: ClaimType,
    pub proof_hash: [u8; 32],
    pub public_inputs_hash: [u8; 32],
    pub witness_count: u8,
    pub issued_at: i64,
    pub revoked: bool,
}

} // verus!
