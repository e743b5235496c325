//! Temporal range proofs: timestamps lie in a time window.
//!
//! The secret values are the offsets `timestamp - time_start` of the
//! points in the window; one aggregate 32-bit Bulletproof shows that every
//! committed offset is below `2^32`, without revealing the timestamps.
use vstd::prelude::*;
use crate::circuit::in_window;
use crate::prover::random_bytes32_masked;
use vstd::arithmetic::power2::{lemma2_to64, pow2};
use crate::rangeproof::{
    aggregate_range_proof, range_proof_degenerate, lemma_next_pow2, next_pow2, next_power_of_two, proof_error_debug,
    range_proof_accepts_some, range_proof_from_bytes, range_proof_output, range_proof_parses,
    range_proof_valid,
    split_into_chunks32, verify_multiple,
};
use crate::types::SignedGPSPoint;

verus! {

/// Bit width of the temporal range proofs.
pub const TEMPORAL_BIT_WIDTH: usize = 32;

/// Transcript label of the temporal range proofs.
pub const TEMPORAL_LABEL: &'static str = "zkpox-temporal-proof-v1";

/// Errors of temporal proofs.
#[derive(Debug)]
pub enum TemporalError {
    /// No point lies in the time window.
    NoPointsInWindow,
    /// The window's start is not before its end.
    InvalidWindow,
    /// The Bulletproofs prover failed (its error, `Debug`-formatted).
    ProofGeneration(String),
    /// The proof bytes do not parse (the parser's error, `Debug`-formatted).
    Deserialization(String),
    /// Bulletproofs verification rejected the proof.
    InvalidProof,
    /// The number of commitment bytes does not match the count.
    CommitmentMismatch { expected: usize, got: usize },
}

/// Result of temporal range proof generation.
#[derive(Debug, Clone)]
pub struct TemporalProofResult {
    pub proof_bytes: Vec<u8>,
    pub commitments: Vec<u8>,
    pub count: u32,
    pub time_window_seconds: u64,
}

/// `2^32`: the first offset a 32-bit range proof cannot hold.
pub open spec fn temporal_limit() -> int {
    0x1_0000_0000
}

/// The committed offset of a timestamp in the window: `ts - start`,
/// lowered to `2^32 - 1` when the window is too long for 32 bits.
pub open spec fn temporal_offset(ts: i64, start: i64, end: i64) -> u64 {
    let v = ts - start;
    let window = end - start;
    if window >= temporal_limit() && v >= temporal_limit() {
        (temporal_limit() - 1) as u64
    } else {
        v as u64
    }
}

/// The offsets of the listed points whose timestamps lie in the window, in
/// the order of the list (points outside the window are skipped).
pub open spec fn temporal_offsets_spec(
    points: Seq<SignedGPSPoint>,
    indices: Seq<usize>,
    start: i64,
    end: i64,
) -> Seq<u64>
    decreases indices.len(),
{
    if indices.len() == 0 {
        Seq::empty()
    } else {
        let prev = temporal_offsets_spec(points, indices.drop_last(), start, end);
        let ts = points[indices.last() as int].timestamp;
        if in_window(ts, start, end) {
            prev.push(temporal_offset(ts, start, end))
        } else {
            prev
        }
    }
}

proof fn lemma_temporal_offsets_len(points: Seq<SignedGPSPoint>, indices: Seq<usize>, start: i64, end: i64)
    ensures
        temporal_offsets_spec(points, indices, start, end).len() <= indices.len(),
    decreases indices.len(),
{
    if indices.len() > 0 {
        lemma_temporal_offsets_len(points, indices.drop_last(), start, end);
    }
}

/// Every temporal offset fits the 32-bit range proof.
pub proof fn lemma_temporal_offsets_fit(points: Seq<SignedGPSPoint>, indices: Seq<usize>, start: i64, end: i64)
    requires
        start < end,
    ensures
        forall|k: int|
            0 <= k < temporal_offsets_spec(points, indices, start, end).len() ==> (
            #[trigger] temporal_offsets_spec(points, indices, start, end)[k]) < temporal_limit(),
    decreases indices.len(),
{
    if indices.len() > 0 {
        lemma_temporal_offsets_fit(points, indices.drop_last(), start, end);
        let ts = points[indices.last() as int].timestamp;
        if in_window(ts, start, end) {
            let v = ts - start;
            assert(0 <= v <= end - start);
            assert(temporal_offset(ts, start, end) < temporal_limit());
        }
        let cur = temporal_offsets_spec(points, indices, start, end);
        let prev = temporal_offsets_spec(points, indices.drop_last(), start, end);
        assert forall|k: int| 0 <= k < cur.len() implies #[trigger] cur[k] < temporal_limit() by {
            if k < prev.len() {
                assert(cur[k] == prev[k]);
            }
        }
    }
}

/// Values followed by zeros up to `len`.
pub open spec fn pad_zeros(values: Seq<u64>, len: nat) -> Seq<u64> {
    Seq::new(len, |k: int| if k < values.len() { values[k] } else { 0u64 })
}

/// What a successful `generate_temporal_proof` returns: the offsets of the
/// listed points in the window are counted, the window length is recorded,
/// and commitments and proof are the aggregate range proof over the
/// offsets padded with zeros to a power of two.
pub open spec fn temporal_output(
    points: Seq<SignedGPSPoint>,
    indices: Seq<usize>,
    start: i64,
    end: i64,
    res: TemporalProofResult,
) -> bool {
    let offs = temporal_offsets_spec(points, indices, start, end);
    &&& start < end
    &&& offs.len() > 0
    &&& res.count == offs.len() as u32
    &&& res.time_window_seconds == end - start
    &&& res.commitments@.len() == 32 * next_pow2(offs.len())
    &&& range_proof_output(pad_zeros(offs, next_pow2(offs.len())), res.proof_bytes@, res.commitments@, TEMPORAL_LABEL@)
}

/// The committed offsets of the listed points in the window `[start, end]`
/// (before padding).
pub fn temporal_offsets(points: &[SignedGPSPoint], indices: &[usize], time_start: i64, time_end: i64) -> (values: Vec<u64>)
    requires
        time_start < time_end,
        forall|k: int| 0 <= k < indices@.len() ==> #[trigger] indices@[k] < points@.len(),
    ensures
        values@ == temporal_offsets_spec(points@, indices@, time_start, time_end),
{
    let window: i128 = (time_end as i128) - (time_start as i128);
    let limit: i128 = 0x1_0000_0000;
    let mut values: Vec<u64> = Vec::new();
    let mut j: usize = 0;
    while j < indices.len()
        invariant
            j <= indices@.len(),
            time_start < time_end,
            window == time_end - time_start,
            limit == temporal_limit(),
            forall|k: int| 0 <= k < indices@.len() ==> #[trigger] indices@[k] < points@.len(),
            values@ == temporal_offsets_spec(points@, indices@.take(j as int), time_start, time_end),
        decreases indices@.len() - j,
    {
        let ts = points[indices[j]].timestamp;
        proof {
            assert(indices@.take(j + 1).drop_last() =~= indices@.take(j as int));
            assert(indices@.take(j + 1).last() == indices@[j as int]);
        }
        if ts >= time_start && ts <= time_end {
            let v: i128 = (ts as i128) - (time_start as i128);
            let off: u64 = if window >= limit && v >= limit {
                0xFFFF_FFFF
            } else {
                v as u64
            };
            values.push(off);
        }
        j = j + 1;
    }
    assert(indices@.take(indices@.len() as int) =~= indices@);
    values
}

/// Generate a temporal range proof for the listed points: the offsets of
/// those in the window `[time_start, time_end]` are committed (padded
/// with zeros to a power of two) and proven below `2^32`.
pub fn generate_temporal_proof(
    points: &[SignedGPSPoint],
    qualifying_indices: &[usize],
    time_start: i64,
    time_end: i64,
) -> (r: Result<TemporalProofResult, TemporalError>)
    requires
        time_start < time_end && qualifying_indices@.len() > 0 ==> forall|k: int|
            0 <= k < qualifying_indices@.len() ==> #[trigger] qualifying_indices@[k] < points@.len(),
        qualifying_indices@.len() <= usize::MAX / 64,
    ensures
        time_start >= time_end ==> r matches Err(TemporalError::InvalidWindow),
        time_start < time_end && qualifying_indices@.len() == 0 ==> r matches Err(
            TemporalError::NoPointsInWindow,
        ),
        time_start < time_end && temporal_offsets_spec(
            points@,
            qualifying_indices@,
            time_start,
            time_end,
        ).len() == 0 ==> r matches Err(TemporalError::NoPointsInWindow),
        time_start < time_end && temporal_offsets_spec(
            points@,
            qualifying_indices@,
            time_start,
            time_end,
        ).len() > 0 ==> r is Ok || r matches Err(TemporalError::ProofGeneration(_)),
        r matches Ok(res) ==> temporal_output(points@, qualifying_indices@, time_start, time_end, res),
{
    if time_start >= time_end {
        return Err(TemporalError::InvalidWindow);
    }
    if qualifying_indices.len() == 0 {
        proof {
            assert(qualifying_indices@ =~= Seq::<usize>::empty());
        }
        return Err(TemporalError::NoPointsInWindow);
    }
    let window_wide: i128 = (time_end as i128) - (time_start as i128);
    let window: u64 = window_wide as u64;
    let mut values = temporal_offsets(points, qualifying_indices, time_start, time_end);
    proof {
        lemma_temporal_offsets_len(points@, qualifying_indices@, time_start, time_end);
    }
    if values.len() == 0 {
        return Err(TemporalError::NoPointsInWindow);
    }
    let n: usize = values.len();
    let padded: u64 = next_power_of_two(n as u64);
    proof {
        lemma_next_pow2(n as nat);
    }
    let mut blindings: Vec<[u8; 32]> = Vec::new();
    let mut i: usize = 0;
    while i < n
        invariant
            i <= n,
            blindings@.len() == i,
        decreases n - i,
    {
        blindings.push(random_bytes32_masked());
        i = i + 1;
    }
    let ghost offs = values@;
    let mut m: usize = n;
    while (m as u64) < padded
        invariant
            n <= m <= padded,
            padded == next_pow2(n as nat),
            padded <= usize::MAX / 32,
            values@.len() == m,
            blindings@.len() == m,
            values@.subrange(0, n as int) == offs,
            forall|k: int| n <= k < m ==> values@[k] == 0u64,
        decreases padded - m,
    {
        values.push(0);
        blindings.push(random_bytes32_masked());
        m = m + 1;
        assert(values@.subrange(0, n as int) =~= offs);
    }
    proof {
        assert(values@ =~= pad_zeros(offs, next_pow2(n as nat)));
    }
    match aggregate_range_proof(&values, &blindings, TEMPORAL_LABEL) {
        Ok((proof_bytes, commitments)) => {
            #[verifier::truncate]
            let count: u32 = n as u32;
            Ok(TemporalProofResult {
                proof_bytes,
                commitments,
                count,
                time_window_seconds: window,
            })
        },
        Err(e) => Err(TemporalError::ProofGeneration(proof_error_debug(&e))),
    }
}

/// Verify a temporal range proof: parse it, check that there is one
/// 32-byte commitment per counted value (padded to a power of two), and
/// run Bulletproofs verification.
pub fn verify_temporal_proof(result: &TemporalProofResult) -> (r: Result<(), TemporalError>)
    ensures
        !range_proof_parses(result.proof_bytes@) ==> r matches Err(TemporalError::Deserialization(_)),
        range_proof_parses(result.proof_bytes@) && result.commitments@.len() != 32 * next_pow2(
            result.count as nat,
        ) ==> r == Err::<(), TemporalError>(
            TemporalError::CommitmentMismatch {
                expected: (32 * next_pow2(result.count as nat)) as usize,
                got: result.commitments@.len() as usize,
            },
        ),
        range_proof_parses(result.proof_bytes@) && result.commitments@.len() == 32 * next_pow2(
            result.count as nat,
        ) ==> r is Ok || r == Err::<(), TemporalError>(TemporalError::InvalidProof),
        r is Ok ==> range_proof_parses(result.proof_bytes@) && result.commitments@.len() == 32
            * next_pow2(result.count as nat),
        r is Ok ==> range_proof_accepts_some(result.proof_bytes@, result.commitments@, 32, TEMPORAL_LABEL@),
        range_proof_parses(result.proof_bytes@) && result.commitments@.len() == 32 * next_pow2(
            result.count as nat,
        ) && range_proof_valid(result.proof_bytes@, result.commitments@, 32, TEMPORAL_LABEL@) ==> r is Ok,
{
    match range_proof_from_bytes(result.proof_bytes.as_slice()) {
        Ok(()) => {},
        Err(e) => {
            return Err(TemporalError::Deserialization(proof_error_debug(&e)));
        },
    };
    let n_values: u64 = next_power_of_two(result.count as u64);
    proof {
        lemma_next_pow2(result.count as nat);
    }
    let expected: u64 = n_values * 32;
    let got: usize = result.commitments.len();
    if got as u64 != expected {
        #[verifier::truncate]
        let expected_usize: usize = expected as usize;
        return Err(TemporalError::CommitmentMismatch { expected: expected_usize, got });
    }
    let chunks = split_into_chunks32(result.commitments.as_slice());
    match verify_multiple(result.proof_bytes.as_slice(), &chunks, TEMPORAL_BIT_WIDTH, TEMPORAL_LABEL) {
        Ok(()) => Ok(()),
        Err(_) => Err(TemporalError::InvalidProof),
    }
}

/// A generated temporal proof verifies: `verify_temporal_proof` accepts
/// what `generate_temporal_proof` returned (by its own contract: the proof
/// parses, the commitments match the count, and it is a valid range proof
/// under the temporal label; every offset fits 32 bits). Left out are the
/// outcomes on which it cannot hold: more offsets than the `u32` count or
/// a proof too large to parse back (`2^27` values), and the rare degenerate
/// proofs (`range_proof_degenerate`) the verifier refuses.
pub proof fn lemma_generated_temporal_proof_verifies(
    points: Seq<SignedGPSPoint>,
    indices: Seq<usize>,
    start: i64,
    end: i64,
    res: TemporalProofResult,
)
    requires
        temporal_output(points, indices, start, end, res),
        temporal_offsets_spec(points, indices, start, end).len() <= u32::MAX,
        next_pow2(temporal_offsets_spec(points, indices, start, end).len()) < 0x0800_0000,
        !range_proof_degenerate(res.proof_bytes@, res.commitments@, 32, TEMPORAL_LABEL@),
    ensures
        range_proof_parses(res.proof_bytes@),
        res.commitments@.len() == 32 * next_pow2(res.count as nat),
        range_proof_valid(res.proof_bytes@, res.commitments@, 32, TEMPORAL_LABEL@),
{
    let offs = temporal_offsets_spec(points, indices, start, end);
    let vals = pad_zeros(offs, next_pow2(offs.len()));
    lemma2_to64();
    lemma_temporal_offsets_fit(points, indices, start, end);
    assert forall|k: int| 0 <= k < vals.len() implies (#[trigger] vals[k] as int) < pow2(32nat) by {
        if k < offs.len() {
            assert(offs[k] < temporal_limit());
        }
    }
}

} // verus!
