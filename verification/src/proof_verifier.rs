//! Proof verification.
//!
//! The verifier checks the public inputs, deserializes the aggregate
//! Bulletproof, checks that there is one 32-byte commitment per proven
//! value (two per point, padded to a power of two) and runs Bulletproofs
//! verification over them.
use vstd::prelude::*;
use crate::commitment::{position_message, public_inputs_hash, public_inputs_message};
use crate::crypto::sha256_spec;
use crate::rangeproof::{
    lemma_next_pow2, next_pow2, next_power_of_two, proof_error_debug, range_proof_from_bytes,
    range_proof_accepts_some, range_proof_parses, range_proof_valid, split_into_chunks32,
    verify_multiple,
};
use crate::prover::{
    anchor_center, center_salt_message, lemma_offsets_within_box, padded_offsets, proof_point_count,
    proven_indices, prover_output, selected_indices, StabilitySelection, GEO_LABEL,
};
use crate::circuit::{in_bbox, lemma_qualifying_points_are_the_claim, lemma_qualifying_prefix, qualifying_indices};
use crate::rangeproof::{all_below_pow2, range_proof_degenerate};
use vstd::arithmetic::power2::{lemma2_to64, pow2};
use crate::types::{ClaimType, ProofRequest, ProofResult, PublicInputs, SignedGPSPoint};

verus! {

/// Bit width of the range proofs; matches the prover.
pub const VERIFIER_BIT_WIDTH: usize = 32;

/// Errors of proof verification.
#[derive(Debug)]
pub enum VerifierError {
    /// The proof bytes do not parse (the parser's error, `Debug`-formatted).
    DeserializationError(String),
    /// Bulletproofs verification rejected the proof.
    InvalidRangeProof,
    /// The public inputs contradict each other.
    InconsistentInputs(String),
    /// Fewer points were proven than the claim requires.
    CountBelowMinimum { proven: u32, required: u32 },
    /// The number of commitment bytes does not match the proven count.
    CommitmentMismatch { expected: usize, got: usize },
}

/// Number of commitment bytes a proof over `count` points carries: two
/// values per point, padded to a power of two, 32 bytes each.
pub open spec fn expected_commitment_bytes(count: nat) -> nat {
    32 * next_pow2(2 * count)
}

/// Whether a 32-byte array is all zeros.
pub open spec fn is_zero_hash(h: [u8; 32]) -> bool {
    forall|i: int| 0 <= i < 32 ==> h@[i] == 0
}

/// The checks of `verify_proof` that do not involve the proof bytes: the
/// count reaches the minimum, the center hash is not all zeros, and the
/// commitments are as many as the proven count calls for.
pub open spec fn passes_public_checks(result: ProofResult) -> bool {
    &&& result.public_inputs.count_proven >= result.public_inputs.min_count
    &&& !is_zero_hash(result.public_inputs.center_hash)
    &&& result.commitments@.len() == expected_commitment_bytes(result.public_inputs.count_proven as nat)
}

/// Verify the aggregate Bulletproof range proof over the given
/// commitments: parse the proof, check the commitment count for
/// `point_count` points, then verify.
pub fn verify_aggregate_range_proof(proof_bytes: &[u8], commitments_bytes: &[u8], point_count: u32) -> (r: Result<(), VerifierError>)
    ensures
        !range_proof_parses(proof_bytes@) ==> r matches Err(VerifierError::DeserializationError(_)),
        range_proof_parses(proof_bytes@) && commitments_bytes@.len() != expected_commitment_bytes(
            point_count as nat,
        ) ==> r == Err::<(), VerifierError>(
            VerifierError::CommitmentMismatch {
                expected: expected_commitment_bytes(point_count as nat) as usize,
                got: commitments_bytes@.len() as usize,
            },
        ),
        range_proof_parses(proof_bytes@) && commitments_bytes@.len() == expected_commitment_bytes(
            point_count as nat,
        ) ==> r is Ok || r == Err::<(), VerifierError>(VerifierError::InvalidRangeProof),
        r is Ok ==> range_proof_parses(proof_bytes@) && commitments_bytes@.len()
            == expected_commitment_bytes(point_count as nat),
        r is Ok ==> range_proof_accepts_some(proof_bytes@, commitments_bytes@, 32, GEO_LABEL@),
        range_proof_parses(proof_bytes@) && commitments_bytes@.len() == expected_commitment_bytes(
            point_count as nat,
        ) && range_proof_valid(proof_bytes@, commitments_bytes@, 32, GEO_LABEL@) ==> r is Ok,
{
    match range_proof_from_bytes(proof_bytes) {
        Ok(()) => {},
        Err(e) => {
            return Err(VerifierError::DeserializationError(proof_error_debug(&e)));
        },
    };
    let doubled: u64 = 2 * (point_count as u64);
    let n_values: u64 = next_power_of_two(doubled);
    proof {
        lemma_next_pow2(doubled as nat);
    }
    let expected: u64 = n_values * 32;
    let got: usize = commitments_bytes.len();
    if got as u64 != expected {
        #[verifier::truncate]
        let expected_usize: usize = expected as usize;
        return Err(VerifierError::CommitmentMismatch { expected: expected_usize, got });
    }
    let chunks = split_into_chunks32(commitments_bytes);
    match verify_multiple(proof_bytes, &chunks, VERIFIER_BIT_WIDTH, GEO_LABEL) {
        Ok(()) => Ok(()),
        Err(_) => Err(VerifierError::InvalidRangeProof),
    }
}

/// Verify a ZK-PoX proof.
///
/// Checks, in order: the proven count reaches the minimum; the center
/// hash is not all zeros; the proof parses; there are as many commitment
/// bytes as `count_proven` points call for; Bulletproofs verification
/// accepts.
pub fn verify_proof(result: &ProofResult) -> (r: Result<(), VerifierError>)
    ensures
        result.public_inputs.count_proven < result.public_inputs.min_count ==> r == Err::<
            (),
            VerifierError,
        >(
            VerifierError::CountBelowMinimum {
                proven: result.public_inputs.count_proven,
                required: result.public_inputs.min_count,
            },
        ),
        result.public_inputs.count_proven >= result.public_inputs.min_count && is_zero_hash(
            result.public_inputs.center_hash,
        ) ==> (r matches Err(VerifierError::InconsistentInputs(m)) && m@
            == "center_hash is all zeros"@),
        result.public_inputs.count_proven >= result.public_inputs.min_count && !is_zero_hash(
            result.public_inputs.center_hash,
        ) && !range_proof_parses(result.proof_bytes@) ==> r matches Err(
            VerifierError::DeserializationError(_),
        ),
        result.public_inputs.count_proven >= result.public_inputs.min_count && !is_zero_hash(
            result.public_inputs.center_hash,
        ) && range_proof_parses(result.proof_bytes@) && result.commitments@.len()
            != expected_commitment_bytes(result.public_inputs.count_proven as nat) ==> r == Err::<
            (),
            VerifierError,
        >(
            VerifierError::CommitmentMismatch {
                expected: expected_commitment_bytes(result.public_inputs.count_proven as nat) as usize,
                got: result.commitments@.len() as usize,
            },
        ),
        r is Ok ==> {
            &&& result.public_inputs.count_proven >= result.public_inputs.min_count
            &&& !is_zero_hash(result.public_inputs.center_hash)
            &&& range_proof_parses(result.proof_bytes@)
            &&& result.commitments@.len() == expected_commitment_bytes(
                result.public_inputs.count_proven as nat,
            )
            &&& range_proof_accepts_some(result.proof_bytes@, result.commitments@, 32, GEO_LABEL@)
        },
        passes_public_checks(*result) && range_proof_parses(result.proof_bytes@)
            ==> r is Ok || r == Err::<(), VerifierError>(VerifierError::InvalidRangeProof),
        r == Err::<(), VerifierError>(VerifierError::InvalidRangeProof) ==> passes_public_checks(
            *result,
        ) && range_proof_parses(result.proof_bytes@),
        passes_public_checks(*result) && range_proof_parses(result.proof_bytes@) && range_proof_valid(
            result.proof_bytes@,
            result.commitments@,
            32,
            GEO_LABEL@,
        ) ==> r is Ok,
{
    let pi = &result.public_inputs;
    if pi.count_proven < pi.min_count {
        return Err(VerifierError::CountBelowMinimum { proven: pi.count_proven, required: pi.min_count });
    }
    let mut all_zero = true;
    let mut i: usize = 0;
    while i < 32
        invariant
            i <= 32,
            all_zero == (forall|j: int| 0 <= j < i ==> pi.center_hash@[j] == 0),
        decreases 32 - i,
    {
        if pi.center_hash[i] != 0 {
            all_zero = false;
        }
        i = i + 1;
    }
    if all_zero {
        return Err(VerifierError::InconsistentInputs("center_hash is all zeros".to_owned()));
    }
    verify_aggregate_range_proof(result.proof_bytes.as_slice(), result.commitments.as_slice(), pi.count_proven)
}

/// Whether the proof's center hash is the expected one.
pub fn verify_center_hash(expected_center_hash: &[u8; 32], proof_result: &ProofResult) -> (r: bool)
    ensures
        r == (proof_result.public_inputs.center_hash@ == expected_center_hash@),
{
    let mut i: usize = 0;
    while i < 32
        invariant
            i <= 32,
            forall|j: int| 0 <= j < i ==> proof_result.public_inputs.center_hash@[j] == expected_center_hash@[j],
        decreases 32 - i,
    {
        if proof_result.public_inputs.center_hash[i] != expected_center_hash[i] {
            assert(proof_result.public_inputs.center_hash@[i as int] != expected_center_hash@[i as int]);
            return false;
        }
        i = i + 1;
    }
    assert(proof_result.public_inputs.center_hash@ =~= expected_center_hash@);
    true
}

/// Hash the public inputs for compact on-chain storage.
pub fn hash_public_inputs(pi: &PublicInputs) -> (h: [u8; 32])
    ensures
        h@ == sha256_spec(
            public_inputs_message(
                pi.center_hash@,
                pi.radius_m,
                pi.time_window_days,
                pi.min_count,
                pi.count_proven,
            ),
        ),
{
    public_inputs_hash(&pi.center_hash, pi.radius_m, pi.time_window_days, pi.min_count, pi.count_proven)
}

/// A proof as `generate_proof` returns it is never refused by
/// `verify_proof` for its count or its commitments: the proven count
/// reaches the claim's minimum and there is one commitment per proven
/// value.
pub proof fn lemma_generated_proof_passes_count_checks(
    points: Seq<SignedGPSPoint>,
    req: ProofRequest,
    stab: Option<StabilitySelection>,
    now: i64,
    res: ProofResult,
)
    requires
        prover_output(points, req, stab, now, res),
    ensures
        res.public_inputs.count_proven >= res.public_inputs.min_count,
        res.commitments@.len() == expected_commitment_bytes(res.public_inputs.count_proven as nat),
        !is_zero_hash(res.public_inputs.center_hash) ==> passes_public_checks(res),
{
}

/// A generated proof verifies: when every committed offset fits the 32-bit
/// ranges, `verify_proof` accepts what `generate_proof` returned (by its
/// own contract: the public checks pass, the proof parses and it is a valid
/// range proof over the commitments under the location label). Left out
/// are the outcomes on which it cannot hold: a center hash that happens to
/// be all zeros, and the rare degenerate proofs (`range_proof_degenerate`)
/// the verifier refuses.
pub proof fn lemma_generated_proof_verifies(
    points: Seq<SignedGPSPoint>,
    req: ProofRequest,
    stab: Option<StabilitySelection>,
    now: i64,
    res: ProofResult,
)
    requires
        prover_output(points, req, stab, now, res),
        all_below_pow2(padded_offsets(points, proven_indices(points, req, stab), anchor_center(req, stab).2), 32),
        !is_zero_hash(res.public_inputs.center_hash),
        !range_proof_degenerate(res.proof_bytes@, res.commitments@, 32, GEO_LABEL@),
    ensures
        passes_public_checks(res),
        range_proof_parses(res.proof_bytes@),
        range_proof_valid(res.proof_bytes@, res.commitments@, 32, GEO_LABEL@),
{
    let n = proof_point_count(selected_indices(points, req, stab).len());
    lemma_next_pow2(2 * n);
    assert(proven_indices(points, req, stab).len() == n);
}

/// For a geofence claim (any claim but STABILITY) whose bounding box is
/// less than `2^32` scaled units wide in each coordinate, every offset a
/// generated proof commits to fits the 32-bit ranges: the proven points lie
/// in the box, so their offsets are at most its width, and the padding is
/// zero.
pub proof fn lemma_geofence_offsets_fit(
    points: Seq<SignedGPSPoint>,
    req: ProofRequest,
    stab: Option<StabilitySelection>,
    now: i64,
    res: ProofResult,
)
    requires
        prover_output(points, req, stab, now, res),
        points.len() <= usize::MAX,
        req.claim_type != ClaimType::Stability,
        req.bbox.lat_max - req.bbox.lat_min < 0x1_0000_0000,
        req.bbox.lng_max - req.bbox.lng_min < 0x1_0000_0000,
    ensures
        all_below_pow2(padded_offsets(points, proven_indices(points, req, stab), anchor_center(req, stab).2), 32),
{
    lemma2_to64();
    lemma_qualifying_prefix(points, req, points.len());
    let q = qualifying_indices(points, req);
    let idx = proven_indices(points, req, stab);
    let b = req.bbox;
    let vals = padded_offsets(points, idx, b);
    assert forall|k: int| 0 <= k < vals.len() implies (#[trigger] vals[k] as int) < pow2(32nat) by {
        if k < 2 * idx.len() {
            let j = k / 2;
            assert(idx[j] == q[j]);
            let p = points[idx[j] as int];
            assert(in_bbox(p.lat_scaled, p.lng_scaled, b));
            lemma_offsets_within_box(p, b);
        }
    }
}

/// A party that knows the geofence center recognizes a proof about it:
/// for any claim but STABILITY, the center hash of a generated proof is
/// the position commitment of the request's center under the salt derived
/// from the request (`position_commitment(center, derive_center_salt(req))`),
/// which is what `verify_center_hash` compares against.
pub proof fn lemma_generated_center_hash_is_commitment(
    points: Seq<SignedGPSPoint>,
    req: ProofRequest,
    stab: Option<StabilitySelection>,
    now: i64,
    res: ProofResult,
)
    requires
        prover_output(points, req, stab, now, res),
        req.claim_type != ClaimType::Stability,
    ensures
        res.public_inputs.center_hash@ == sha256_spec(
            position_message(req.center_lat_bits, req.center_lng_bits, sha256_spec(center_salt_message(req))),
        ),
{
}

/// A geofence proof (any claim but STABILITY) covers only points of the
/// claim: every point it proves was taken within the request's period
/// (between `time_start` and `time_end` inclusive) and lies in the
/// request's bounding box, and they are distinct points in increasing
/// order.
pub proof fn lemma_proven_points_are_in_period(
    points: Seq<SignedGPSPoint>,
    req: ProofRequest,
    stab: Option<StabilitySelection>,
    now: i64,
    res: ProofResult,
)
    requires
        prover_output(points, req, stab, now, res),
        points.len() <= usize::MAX,
        req.claim_type != ClaimType::Stability,
    ensures
        forall|k: int|
            0 <= k < proven_indices(points, req, stab).len() ==> {
                let i = #[trigger] proven_indices(points, req, stab)[k];
                let p = points[i as int];
                &&& i < points.len()
                &&& req.time_start <= p.timestamp <= req.time_end
                &&& req.bbox.lat_min <= p.lat_scaled <= req.bbox.lat_max
                &&& req.bbox.lng_min <= p.lng_scaled <= req.bbox.lng_max
            },
        forall|k: int, l: int|
            0 <= k < l < proven_indices(points, req, stab).len() ==> proven_indices(points, req, stab)[k]
                < proven_indices(points, req, stab)[l],
{
    lemma_qualifying_points_are_the_claim(points, req);
    let q = qualifying_indices(points, req);
    let pr = proven_indices(points, req, stab);
    assert forall|k: int| 0 <= k < pr.len() implies #[trigger] pr[k] == q[k] by {}
}

/// For a STABILITY claim the proof is anchored at the computed centroid:
/// the center hash of a generated proof is the position commitment of the
/// stability selection's centroid under the salt derived from the request,
/// not of the request's own center.
pub proof fn lemma_stability_center_hash_is_centroid_commitment(
    points: Seq<SignedGPSPoint>,
    req: ProofRequest,
    stab: Option<StabilitySelection>,
    now: i64,
    res: ProofResult,
)
    requires
        prover_output(points, req, stab, now, res),
        req.claim_type == ClaimType::Stability,
    ensures
        stab is Some,
        res.public_inputs.center_hash@ == sha256_spec(
            position_message(
                stab->0.centroid_lat_bits,
                stab->0.centroid_lng_bits,
                sha256_spec(center_salt_message(req)),
            ),
        ),
{
}

/// The center hash of a generated proof depends on the request alone (and,
/// for STABILITY claims, on the centroid): two proofs for the same request
/// carry the same center hash, whatever points and times they came from.
pub proof fn lemma_center_hash_deterministic(
    points1: Seq<SignedGPSPoint>,
    points2: Seq<SignedGPSPoint>,
    req: ProofRequest,
    stab1: Option<StabilitySelection>,
    stab2: Option<StabilitySelection>,
    now1: i64,
    now2: i64,
    res1: ProofResult,
    res2: ProofResult,
)
    requires
        prover_output(points1, req, stab1, now1, res1),
        prover_output(points2, req, stab2, now2, res2),
        req.claim_type == ClaimType::Stability ==> stab1->0.centroid_lat_bits == stab2->0.centroid_lat_bits
            && stab1->0.centroid_lng_bits == stab2->0.centroid_lng_bits,
    ensures
        res1.public_inputs.center_hash == res2.public_inputs.center_hash,
{
    assert(res1.public_inputs.center_hash@ =~= res2.public_inputs.center_hash@);
}

} // verus!
