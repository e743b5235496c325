//! Proof generation from GPS history and a proof request.
//!
//! For each selected point the prover commits to the offsets of its scaled
//! coordinates from the bounding box's lower corner,
//! `lat_scaled - lat_min` and `lng_scaled - lng_min`, and produces one
//! aggregate 32-bit Bulletproofs range proof over all of them (padded with
//! zeros to a power of two). A point inside the box has offsets in
//! `[0, box width]`, so the verifier learns that the committed points lie
//! in the box without learning them.
use vstd::prelude::*;
use vstd::string::StringSliceAdditionalSpecFns;
use crate::bytes::{append_bytes, le_i64, le_u32, push_i64_le, push_u32_le};
use crate::circuit::{count_qualifying_points, in_bbox, qualifying_indices};
use crate::commitment::{position_commitment, position_message};
use crate::crypto::{sha256, sha256_spec};
use crate::rangeproof::{
    aggregate_range_proof, lemma_next_pow2, next_pow2, next_power_of_two, proof_error_debug,
    random_bytes32, range_proof_output,
};
use crate::types::{claim_code, BoundingBox, ClaimType, ProofRequest, ProofResult, PublicInputs, SignedGPSPoint};

verus! {

/// Errors of proof generation.
#[derive(Debug)]
pub enum ProverError {
    /// Fewer points qualify than the request's `min_count`.
    InsufficientPoints { found: u32, required: u32 },
    /// No GPS points were provided.
    EmptyInput,
    /// The request itself is malformed.
    InvalidRequest(String),
    /// The Bulletproofs prover failed (its error, `Debug`-formatted).
    BulletproofError(String),
}

/// Maximum number of points in an aggregate proof (64 range proofs); a
/// request whose minimum count exceeds it is refused.
pub const MAX_PROOF_POINTS: usize = 32;

/// Bit width of each range proof: offsets below `2^32` (the width
/// `aggregate_range_proof` proves).
pub const RANGE_BIT_WIDTH: usize = 32;

/// Transcript label of the location range proofs.
pub const GEO_LABEL: &'static str = "zkpox-geo-proof-v1";

/// The centroid and point selection of a STABILITY claim, computed by the
/// caller from the GPS history (mean position, great-circle distances).
#[derive(Debug, Clone)]
pub struct StabilitySelection {
    /// IEEE-754 bits of the centroid latitude.
    pub centroid_lat_bits: u64,
    /// IEEE-754 bits of the centroid longitude.
    pub centroid_lng_bits: u64,
    /// The scaled bounding box of the geofence around the centroid.
    pub centroid_bbox: BoundingBox,
    /// Indices of the points within the radius of the centroid.
    pub qualifying_indices: Vec<usize>,
}

/// Offset of a scaled coordinate from a lower bound, as an unsigned 64-bit
/// value (two's complement wrap-around below the bound).
pub open spec fn offset_of(v: i64, min: i64) -> u64 {
    (v - min) as u64
}

/// The `k`-th committed value for a list of point indices: latitude offset
/// at `2j`, longitude offset at `2j + 1`.
pub open spec fn offset_at(points: Seq<SignedGPSPoint>, indices: Seq<usize>, b: BoundingBox, k: int) -> u64 {
    let p = points[indices[k / 2] as int];
    if k % 2 == 0 {
        offset_of(p.lat_scaled, b.lat_min)
    } else {
        offset_of(p.lng_scaled, b.lng_min)
    }
}

/// The committed values: two offsets per point, then zeros up to the next
/// power of two.
pub open spec fn padded_offsets(points: Seq<SignedGPSPoint>, indices: Seq<usize>, b: BoundingBox) -> Seq<u64> {
    Seq::new(
        next_pow2(2 * indices.len()),
        |k: int|
            if k < 2 * indices.len() {
                offset_at(points, indices, b, k)
            } else {
                0u64
            },
    )
}

/// A point inside the box has both offsets in `[0, box width]`: what the
/// range proof shows of each committed value is the box test itself.
pub proof fn lemma_offsets_within_box(p: SignedGPSPoint, b: BoundingBox)
    requires
        in_bbox(p.lat_scaled, p.lng_scaled, b),
    ensures
        offset_of(p.lat_scaled, b.lat_min) == p.lat_scaled - b.lat_min,
        offset_of(p.lng_scaled, b.lng_min) == p.lng_scaled - b.lng_min,
        offset_of(p.lat_scaled, b.lat_min) <= b.lat_max - b.lat_min,
        offset_of(p.lng_scaled, b.lng_min) <= b.lng_max - b.lng_min,
{
}

fn offset_exec(v: i64, min: i64) -> (o: u64)
    ensures
        o == offset_of(v, min),
{
    let d: i128 = (v as i128) - (min as i128);
    #[verifier::truncate]
    (d as u64)
}

/// The values committed in the aggregate proof for the given points.
pub fn coordinate_offsets(points: &[SignedGPSPoint], indices: &[usize], bbox: &BoundingBox) -> (values: Vec<u64>)
    requires
        forall|k: int| 0 <= k < indices@.len() ==> #[trigger] indices@[k] < points@.len(),
        indices@.len() <= usize::MAX / 128,
    ensures
        values@ == padded_offsets(points@, indices@, *bbox),
{
    let mut values: Vec<u64> = Vec::new();
    let mut j: usize = 0;
    while j < indices.len()
        invariant
            j <= indices@.len(),
            indices@.len() <= usize::MAX / 128,
            forall|k: int| 0 <= k < indices@.len() ==> #[trigger] indices@[k] < points@.len(),
            values@.len() == 2 * j,
            forall|k: int| 0 <= k < 2 * j ==> values@[k] == offset_at(points@, indices@, *bbox, k),
        decreases indices@.len() - j,
    {
        let p = &points[indices[j]];
        let ghost prev = values@;
        values.push(offset_exec(p.lat_scaled, bbox.lat_min));
        values.push(offset_exec(p.lng_scaled, bbox.lng_min));
        proof {
            assert forall|k: int| 0 <= k < 2 * j + 2 implies values@[k] == offset_at(
                points@,
                indices@,
                *bbox,
                k,
            ) by {
                if k >= 2 * j {
                    assert(k / 2 == j);
                }
            }
        }
        j = j + 1;
    }
    let n: u64 = (2 * indices.len()) as u64;
    let padded = next_power_of_two(n);
    proof {
        lemma_next_pow2(n as nat);
    }
    let mut m: usize = values.len();
    while (m as u64) < padded
        invariant
            2 * indices@.len() <= m <= padded,
            padded == next_pow2(2 * indices@.len()),
            padded <= usize::MAX / 32,
            values@.len() == m,
            forall|k: int| 0 <= k < 2 * indices@.len() ==> values@[k] == offset_at(points@, indices@, *bbox, k),
            forall|k: int| 2 * indices@.len() <= k < m ==> values@[k] == 0u64,
        decreases padded - m,
    {
        values.push(0);
        m = m + 1;
    }
    assert(values@ =~= padded_offsets(points@, indices@, *bbox));
    values
}

/// 32 random bytes with the top four bits of the last byte cleared, so
/// that the little-endian integer is below `2^252` (already reduced modulo
/// the group order).
pub fn random_bytes32_masked() -> (b: [u8; 32])
    ensures
        b@[31] < 16,
{
    let mut bytes = random_bytes32();
    let last: u8 = bytes[31];
    let top: u8 = last & 0x0F;
    assert(top < 16) by (bit_vector)
        requires
            top == last & 0x0F,
    ;
    bytes.set(31, top);
    bytes
}

/// The bytes hashed into the center salt: a domain tag, the claim's wire
/// code, the radius and the time window.
pub open spec fn center_salt_message(req: ProofRequest) -> Seq<u8> {
    "zkpox-center-salt-v1".spec_bytes() + seq![claim_code(req.claim_type)] + le_u32(req.radius_m)
        + le_i64(req.time_start) + le_i64(req.time_end)
}

/// The salt of the center commitment, derived from the public parts of
/// the request.
pub fn derive_center_salt(request: &ProofRequest) -> (salt: [u8; 32])
    ensures
        salt@ == sha256_spec(center_salt_message(*request)),
{
    let mut msg: Vec<u8> = Vec::new();
    append_bytes(&mut msg, "zkpox-center-salt-v1".as_bytes());
    let code = request.claim_type.to_u8();
    msg.push(code);
    push_u32_le(&mut msg, request.radius_m);
    push_i64_le(&mut msg, request.time_start);
    push_i64_le(&mut msg, request.time_end);
    proof {
        assert(msg@ =~= center_salt_message(*request));
    }
    sha256(msg.as_slice())
}

/// Generate the aggregate range proof over the coordinate offsets of the
/// given points from the box's lower corner. Returns the proof bytes and
/// the commitments (32 bytes per committed value).
pub fn generate_aggregate_range_proof(
    points: &[SignedGPSPoint],
    indices: &[usize],
    bbox: &BoundingBox,
) -> (r: Result<(Vec<u8>, Vec<u8>), ProverError>)
    requires
        forall|k: int| 0 <= k < indices@.len() ==> #[trigger] indices@[k] < points@.len(),
        indices@.len() <= usize::MAX / 128,
    ensures
        r matches Ok((p, c)) ==> range_proof_output(padded_offsets(points@, indices@, *bbox), p@, c@, GEO_LABEL@),
        r matches Err(e) ==> e is BulletproofError,
{
    let values = coordinate_offsets(points, indices, bbox);
    proof {
        lemma_next_pow2(2 * indices@.len());
        assert(values@.len() <= usize::MAX / 32);
    }
    let mut blindings: Vec<[u8; 32]> = Vec::new();
    let mut i: usize = 0;
    while i < values.len()
        invariant
            i <= values@.len(),
            blindings@.len() == i,
        decreases values@.len() - i,
    {
        blindings.push(random_bytes32());
        i = i + 1;
    }
    match aggregate_range_proof(&values, &blindings, GEO_LABEL) {
        Ok((proof_bytes, commitment_bytes)) => Ok((proof_bytes, commitment_bytes)),
        Err(e) => Err(ProverError::BulletproofError(proof_error_debug(&e))),
    }
}

/// The center the proof is anchored at: the request's center, or the
/// computed centroid for STABILITY claims.
pub open spec fn anchor_center(req: ProofRequest, stab: Option<StabilitySelection>) -> (u64, u64, BoundingBox) {
    if req.claim_type == ClaimType::Stability {
        (stab->0.centroid_lat_bits, stab->0.centroid_lng_bits, stab->0.centroid_bbox)
    } else {
        (req.center_lat_bits, req.center_lng_bits, req.bbox)
    }
}

/// The points a claim rests on: those within the geofence (time window,
/// night hours, bounding box), or those near the centroid for STABILITY
/// claims.
pub open spec fn selected_indices(
    points: Seq<SignedGPSPoint>,
    req: ProofRequest,
    stab: Option<StabilitySelection>,
) -> Seq<usize> {
    if req.claim_type == ClaimType::Stability {
        stab->0.qualifying_indices@
    } else {
        qualifying_indices(points, req)
    }
}

/// Whether a request passes the input checks of proof generation.
pub open spec fn request_well_formed(points: Seq<SignedGPSPoint>, req: ProofRequest) -> bool {
    points.len() > 0 && req.radius_m > 0 && req.time_start < req.time_end
}

/// Number of points the proof covers: the selected points, at most 32.
pub open spec fn proof_point_count(n: nat) -> nat {
    if n < 32 {
        n
    } else {
        32
    }
}

/// The commitment hash of the anchor center.
pub open spec fn center_hash_spec(req: ProofRequest, stab: Option<StabilitySelection>) -> Seq<u8> {
    let (lat, lng, _) = anchor_center(req, stab);
    sha256_spec(position_message(lat, lng, sha256_spec(center_salt_message(req))))
}

/// The points a proof covers: the first selected points, at most 32.
pub open spec fn proven_indices(points: Seq<SignedGPSPoint>, req: ProofRequest, stab: Option<StabilitySelection>) -> Seq<usize> {
    let sel = selected_indices(points, req, stab);
    sel.take(proof_point_count(sel.len()) as int)
}

/// What a successful `generate_proof` returns: a result whose public
/// inputs commit to the anchor center, copy the request's radius and
/// minimum, give the window in whole days and the number of points proven
/// (the selected points, at most 32, and at least the minimum), stamped
/// with `now`, whose commitments are the Pedersen commitments of the
/// coordinate offsets of the proven points from the anchor box (padded
/// with zeros) and whose proof is the aggregate range proof over them.
pub open spec fn prover_output(
    points: Seq<SignedGPSPoint>,
    req: ProofRequest,
    stab: Option<StabilitySelection>,
    now: i64,
    res: ProofResult,
) -> bool {
    let sel = selected_indices(points, req, stab);
    let n = proof_point_count(sel.len());
    &&& request_well_formed(points, req)
    &&& req.claim_type == ClaimType::Stability ==> stab is Some
    &&& (sel.len() as u32) >= req.min_count
    &&& req.min_count <= MAX_PROOF_POINTS
    &&& res.public_inputs.count_proven >= res.public_inputs.min_count
    &&& res.public_inputs.center_hash@ == center_hash_spec(req, stab)
    &&& res.public_inputs.radius_m == req.radius_m
    &&& res.public_inputs.time_window_days == ((req.time_end - req.time_start) / 86400) as u32
    &&& res.public_inputs.min_count == req.min_count
    &&& res.public_inputs.count_proven == n
    &&& res.claim_type == req.claim_type
    &&& res.generated_at == now
    &&& res.total_points_evaluated == points.len() as u32
    &&& res.commitments@.len() == 32 * next_pow2(2 * n)
    &&& range_proof_output(
        padded_offsets(points, proven_indices(points, req, stab), anchor_center(req, stab).2),
        res.proof_bytes@,
        res.commitments@,
        GEO_LABEL@,
    )
}

/// Generate a ZK-PoX proof from GPS history.
///
/// The proof demonstrates that the selected points (at most 32 of them)
/// lie in the bounding box of the geofence around the anchor center, and
/// reveals only the center's commitment, the radius, the time window, the
/// minimum count and the number of points proven, which is at least the
/// minimum: a request that asks for more points than a proof can cover is
/// refused once enough points qualify. `now` is the generation
/// time stamped on the result; `stability` carries the centroid analysis
/// and is read only for STABILITY claims.
pub fn generate_proof(
    points: &[SignedGPSPoint],
    request: &ProofRequest,
    stability: &Option<StabilitySelection>,
    now: i64,
) -> (r: Result<ProofResult, ProverError>)
    requires
        request.claim_type != ClaimType::Stability ==> qualifying_indices(points@, *request).len()
            <= u32::MAX,
        request.claim_type == ClaimType::Stability ==> {
            &&& stability is Some
            &&& forall|k: int|
                0 <= k < stability->0.qualifying_indices@.len()
                    ==> #[trigger] stability->0.qualifying_indices@[k] < points@.len()
        },
    ensures
        points@.len() == 0 ==> r matches Err(ProverError::EmptyInput),
        points@.len() > 0 && request.radius_m == 0 ==> (r matches Err(ProverError::InvalidRequest(m))
            && m@ == "radius must be > 0"@),
        points@.len() > 0 && request.radius_m > 0 && request.time_start >= request.time_end
            ==> (r matches Err(ProverError::InvalidRequest(m)) && m@ == "time_start must be < time_end"@),
        request_well_formed(points@, *request) && (selected_indices(
            points@,
            *request,
            *stability,
        ).len() as u32) < request.min_count ==> r == Err::<ProofResult, ProverError>(
            ProverError::InsufficientPoints {
                found: selected_indices(points@, *request, *stability).len() as u32,
                required: request.min_count,
            },
        ),
        request_well_formed(points@, *request) && (selected_indices(
            points@,
            *request,
            *stability,
        ).len() as u32) >= request.min_count && request.min_count > MAX_PROOF_POINTS ==> (
        r matches Err(ProverError::InvalidRequest(m)) && m@ == "min_count must be <= 32"@),
        request_well_formed(points@, *request) && (selected_indices(
            points@,
            *request,
            *stability,
        ).len() as u32) >= request.min_count && request.min_count <= MAX_PROOF_POINTS ==> r is Ok
            || r matches Err(ProverError::BulletproofError(_)),
        r matches Ok(res) ==> prover_output(points@, *request, *stability, now, res),
{
    if points.len() == 0 {
        return Err(ProverError::EmptyInput);
    }
    if request.radius_m == 0 {
        return Err(ProverError::InvalidRequest("radius must be > 0".to_owned()));
    }
    if request.time_start >= request.time_end {
        return Err(ProverError::InvalidRequest("time_start must be < time_end".to_owned()));
    }
    let is_stability = match request.claim_type {
        ClaimType::Stability => true,
        _ => false,
    };
    let (center_lat_bits, center_lng_bits, bbox, indices) = if is_stability {
        let sel = match stability {
            Some(sel) => sel,
            None => {
                proof {
                    assert(false);
                }
                return Err(ProverError::EmptyInput);
            },
        };
        #[verifier::truncate]
        let count: u32 = sel.qualifying_indices.len() as u32;
        if count < request.min_count {
            return Err(ProverError::InsufficientPoints { found: count, required: request.min_count });
        }
        (sel.centroid_lat_bits, sel.centroid_lng_bits, sel.centroid_bbox, sel.qualifying_indices.clone())
    } else {
        let (count, indices) = count_qualifying_points(points, request);
        if count < request.min_count {
            return Err(ProverError::InsufficientPoints { found: count, required: request.min_count });
        }
        proof {
            crate::circuit::lemma_qualifying_prefix(points@, *request, points@.len());
        }
        (request.center_lat_bits, request.center_lng_bits, request.bbox, indices)
    };
    assert(indices@ == selected_indices(points@, *request, *stability));
    if request.min_count as usize > MAX_PROOF_POINTS {
        return Err(ProverError::InvalidRequest("min_count must be <= 32".to_owned()));
    }
    let center_salt = derive_center_salt(request);
    let center_hash = position_commitment(center_lat_bits, center_lng_bits, &center_salt);
    let window: i128 = (request.time_end as i128) - (request.time_start as i128);
    #[verifier::truncate]
    let time_window_days: u32 = (window / 86_400) as u32;
    let proof_count: usize = if indices.len() < MAX_PROOF_POINTS {
        indices.len()
    } else {
        MAX_PROOF_POINTS
    };
    let mut selected: Vec<usize> = Vec::new();
    let mut k: usize = 0;
    while k < proof_count
        invariant
            k <= proof_count <= indices@.len(),
            proof_count <= 32,
            selected@ == indices@.take(k as int),
            forall|q: int| 0 <= q < indices@.len() ==> #[trigger] indices@[q] < points@.len(),
        decreases proof_count - k,
    {
        selected.push(indices[k]);
        k = k + 1;
        assert(selected@ =~= indices@.take(k as int));
    }
    assert(selected@ == proven_indices(points@, *request, *stability));
    let (proof_bytes, commitments) = generate_aggregate_range_proof(points, selected.as_slice(), &bbox)?;
    let public_inputs = PublicInputs {
        center_hash,
        radius_m: request.radius_m,
        time_window_days,
        min_count: request.min_count,
        count_proven: proof_count as u32,
    };
    #[verifier::truncate]
    let total: u32 = points.len() as u32;
    Ok(ProofResult {
        proof_bytes,
        public_inputs,
        claim_type: request.claim_type,
        generated_at: now,
        total_points_evaluated: total,
        commitments,
    })
}

} // verus!
