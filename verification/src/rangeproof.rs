//! Aggregate Bulletproofs range proofs over Pedersen commitments, from the
//! `bulletproofs`, `curve25519-dalek-ng`, `merlin` and `rand` crates, and
//! the byte layouts the library stores them in.
use vstd::prelude::*;
use vstd::arithmetic::power2::pow2;
use bulletproofs::{BulletproofGens, PedersenGens, RangeProof};
use curve25519_dalek_ng::ristretto::CompressedRistretto;
use curve25519_dalek_ng::scalar::Scalar;
use merlin::Transcript;

verus! {

#[verifier::external_type_specification]
#[verifier::external_body]
pub struct ExProofError(bulletproofs::ProofError);

/// Bit widths that Bulletproofs range proofs support.
pub open spec fn valid_bit_width(n: usize) -> bool {
    n == 8 || n == 16 || n == 32 || n == 64
}

/// Whether `x` is a power of two (`1, 2, 4, ...`).
pub open spec fn is_pow2(x: nat) -> bool
    decreases x,
{
    if x == 1 {
        true
    } else if x == 0 || x % 2 == 1 {
        false
    } else {
        is_pow2(x / 2)
    }
}

/// The least power of two that is at least `n`, searching upward from `p`.
pub open spec fn next_pow2_from(n: nat, p: nat) -> nat
    recommends
        p >= 1,
    decreases (if n > p { n - p } else { 0 }),
{
    if p >= n || p == 0 {
        p
    } else {
        next_pow2_from(n, 2 * p)
    }
}

/// The least power of two that is at least `n` (`1` for `n == 0`), as
/// `usize::next_power_of_two` computes it.
pub open spec fn next_pow2(n: nat) -> nat {
    next_pow2_from(n, 1)
}

proof fn lemma_next_pow2_from(n: nat, p: nat)
    requires
        p >= 1,
        is_pow2(p),
        p == 1 || p < 2 * n,
    ensures
        is_pow2(next_pow2_from(n, p)),
        next_pow2_from(n, p) >= n,
        next_pow2_from(n, p) >= p,
        next_pow2_from(n, p) == 1 || next_pow2_from(n, p) < 2 * n,
    decreases (if n > p { n - p } else { 0 }),
{
    if p >= n {
    } else {
        assert((2 * p) / 2 == p);
        lemma_next_pow2_from(n, 2 * p);
    }
}

/// `next_pow2(n)` is a power of two, at least `n`, and less than `2 n`
/// unless it is `1`.
pub proof fn lemma_next_pow2(n: nat)
    ensures
        is_pow2(next_pow2(n)),
        next_pow2(n) >= n,
        next_pow2(n) >= 1,
        next_pow2(n) == 1 || next_pow2(n) < 2 * n,
{
    lemma_next_pow2_from(n, 1);
}

/// The least power of two that is at least `n` (`1` for `n == 0`).
pub fn next_power_of_two(n: u64) -> (p: u64)
    requires
        n <= 0x8000_0000_0000_0000,
    ensures
        p == next_pow2(n as nat),
{
    proof {
        lemma_next_pow2(n as nat);
    }
    let mut p: u64 = 1;
    while p < n
        invariant
            p >= 1,
            n <= 0x8000_0000_0000_0000,
            is_pow2(p as nat),
            p == 1 || p < 2 * n,
            next_pow2_from(n as nat, p as nat) == next_pow2(n as nat),
        decreases (if n > p { n - p } else { 0 }),
    {
        assert((2 * p) as nat / 2 == p as nat);
        p = p * 2;
    }
    p
}

/// `rand::thread_rng().fill_bytes`: 32 bytes from the thread-local CSPRNG.
/// Nothing is stated about them.
#[verifier::external_body]
pub(crate) fn random_bytes32() -> (b: [u8; 32])
{
    let mut bytes = [0u8; 32];
    rand::RngCore::fill_bytes(&mut rand::thread_rng(), &mut bytes);
    bytes
}

/// The 32-byte compressed Ristretto encoding of the Pedersen commitment
/// `value * B + blinding * B_blinding`, where `B` and `B_blinding` are the
/// generators of `bulletproofs::PedersenGens::default()` and `blinding` is
/// the scalar of the 32 little-endian bytes reduced modulo the group order.
pub uninterp spec fn pedersen_commitment(value: u64, blinding: Seq<u8>) -> Seq<u8>;

/// Whether `bulletproofs::RangeProof::from_bytes` accepts a byte string.
pub uninterp spec fn range_proof_parses(bytes: Seq<u8>) -> bool;

/// Whether the bytes parse as a range proof that
/// `bulletproofs::RangeProof::verify_multiple` accepts for the given
/// concatenated 32-byte commitments, bit width and transcript label (with
/// default Pedersen generators and Bulletproof generators of capacity
/// `(n_bits, number of commitments)`) whatever random batching challenge it
/// draws. Everything else the check uses is derived from its arguments, so
/// this depends on them alone.
pub uninterp spec fn range_proof_valid(proof: Seq<u8>, commitments: Seq<u8>, n_bits: usize, label: Seq<char>) -> bool;

/// Whether the bytes parse as a range proof (`RangeProof::from_bytes`)
/// whose batched verification equation, as
/// `bulletproofs::RangeProof::verify_multiple` checks it for the given
/// concatenated 32-byte commitments, bit width and transcript label (with
/// default Pedersen generators and Bulletproof generators of capacity
/// `(n_bits, number of commitments)`), holds for some batching scalar, its
/// other checks passing. It depends on its arguments alone.
pub uninterp spec fn range_proof_accepts_some(proof: Seq<u8>, commitments: Seq<u8>, n_bits: usize, label: Seq<char>) -> bool;

/// Whether a range proof is one of the rare degenerate proofs the verifier
/// refuses although an honest prover may produce them: one of its points
/// `A`, `S`, `T_1`, `T_2` or of the inner-product points `L_i`, `R_i` is the
/// identity, or a transcript challenge that verification inverts is zero.
/// It depends on the proof, the commitments, the bit width and the label
/// alone.
pub uninterp spec fn range_proof_degenerate(proof: Seq<u8>, commitments: Seq<u8>, n_bits: usize, label: Seq<char>) -> bool;

/// Whether every value fits in `n_bits` bits.
pub open spec fn all_below_pow2(values: Seq<u64>, n_bits: usize) -> bool {
    forall|i: int| 0 <= i < values.len() ==> (#[trigger] values[i] as int) < pow2(n_bits as nat)
}

/// `bulletproofs::RangeProof::prove_multiple` with default Pedersen
/// generators, Bulletproof generators of capacity `(n_bits, values.len())`
/// and a Merlin transcript labelled `label`. Each blinding is converted
/// with `Scalar::from_bytes_mod_order`; the proof is returned as
/// `RangeProof::to_bytes` and each commitment as
/// `CompressedRistretto::to_bytes`.
///
/// From the crate's source: the call fails unless there is one blinding
/// per value, the bit width is 8, 16, 32 or 64 and the number of values is
/// a power of two; it can also fail by chance (a zero challenge), so
/// success is not promised. On success the `i`-th commitment is the
/// Pedersen commitment of the `i`-th value under the `i`-th blinding
/// (`party.rs`, `PedersenGens::commit`); the proof serializes four points,
/// three scalars, `log2(n_bits * values.len())` pairs of points and two
/// scalars, so it parses back when that logarithm is below 32; and when
/// every value fits in `n_bits` bits it is valid unless it is degenerate
/// (Bulletproofs completeness; the verifier's identity and zero checks are
/// the only ones an honest proof can fail).
#[verifier::external_body]
pub(crate) fn prove_multiple(
    values: &Vec<u64>,
    blindings: &Vec<[u8; 32]>,
    n_bits: usize,
    label: &'static str,
) -> (r: Result<(Vec<u8>, Vec<[u8; 32]>), bulletproofs::ProofError>)
    ensures
        r is Ok ==> values@.len() == blindings@.len() && valid_bit_width(n_bits) && is_pow2(
            values@.len() as nat,
        ),
        r matches Ok((p, c)) ==> {
            &&& c@.len() == values@.len()
            &&& forall|i: int| 0 <= i < c@.len() ==> (#[trigger] c@[i])@ == pedersen_commitment(values@[i], blindings@[i]@)
            &&& p@.len() >= 9 * 32 && p@.len() % 32 == 0
            &&& n_bits * values@.len() < 0x1_0000_0000 ==> range_proof_parses(p@)
            &&& all_below_pow2(values@, n_bits) && !range_proof_degenerate(p@, flatten32(c@), n_bits, label@)
                ==> range_proof_valid(p@, flatten32(c@), n_bits, label@)
        },
{
    let s: Vec<Scalar> = blindings.iter().map(|b| Scalar::from_bytes_mod_order(*b)).collect();
    let bp_gens = BulletproofGens::new(n_bits, values.len());
    let mut transcript = Transcript::new(label.as_bytes());
    let (proof, cs) = RangeProof::prove_multiple(&bp_gens, &PedersenGens::default(), &mut transcript, values, &s, n_bits)?;
    Ok((proof.to_bytes(), cs.iter().map(|c| c.to_bytes()).collect()))
}

/// `bulletproofs::RangeProof::from_bytes`, keeping only whether it parses
/// (the error is kept for reporting). Success is a function of the bytes
/// alone (`range_proof_parses`); the source rejects every length that is
/// not a multiple of 32, below `9 * 32`, or that leaves an odd number of
/// inner-product elements or 32 or more rounds.
#[verifier::external_body]
pub(crate) fn range_proof_from_bytes(bytes: &[u8]) -> (r: Result<(), bulletproofs::ProofError>)
    ensures
        r is Ok <==> range_proof_parses(bytes@),
        r is Ok ==> bytes@.len() % 32 == 0 && bytes@.len() >= 9 * 32 && (bytes@.len() / 32 - 9)
            % 2 == 0 && (bytes@.len() / 32 - 9) / 2 < 32,
{
    RangeProof::from_bytes(bytes).map(|_| ())
}

/// `bulletproofs::RangeProof::verify_multiple` on the proof parsed from
/// `proof` by `RangeProof::from_bytes`, with default Pedersen generators,
/// Bulletproof generators of capacity `(n_bits, commitments.len())` and a
/// Merlin transcript labelled `label`; each 32-byte array is taken as a
/// `CompressedRistretto`.
///
/// The check draws a random batching challenge, so of a refusal nothing is
/// stated. An accepted proof parses, has a supported bit width and passed
/// the batched verification equation for the challenge drawn
/// (`range_proof_accepts_some`); a valid proof (`range_proof_valid`) is
/// always accepted.
#[verifier::external_body]
pub(crate) fn verify_multiple(
    proof: &[u8],
    commitments: &Vec<[u8; 32]>,
    n_bits: usize,
    label: &'static str,
) -> (r: Result<(), bulletproofs::ProofError>)
    ensures
        r is Ok ==> range_proof_parses(proof@) && valid_bit_width(n_bits),
        r is Ok ==> range_proof_accepts_some(proof@, flatten32(commitments@), n_bits, label@),
        range_proof_valid(proof@, flatten32(commitments@), n_bits, label@) ==> r is Ok,
{
    let parsed = RangeProof::from_bytes(proof)?;
    let points: Vec<CompressedRistretto> = commitments.iter().map(|b| CompressedRistretto(*b)).collect();
    let bp_gens = BulletproofGens::new(n_bits, commitments.len());
    let mut transcript = Transcript::new(label.as_bytes());
    parsed.verify_multiple(&bp_gens, &PedersenGens::default(), &mut transcript, &points, n_bits)
}

/// `Debug` formatting of a `bulletproofs::ProofError` (e.g. `"FormatError"`).
#[verifier::external_body]
pub(crate) fn proof_error_debug(e: &bulletproofs::ProofError) -> (s: String)
{
    format!("{:?}", e)
}

/// The bytes of a list of 32-byte arrays, concatenated.
pub open spec fn flatten32(chunks: Seq<[u8; 32]>) -> Seq<u8>
    decreases chunks.len(),
{
    if chunks.len() == 0 {
        Seq::empty()
    } else {
        flatten32(chunks.drop_last()) + chunks.last()@
    }
}

pub proof fn lemma_flatten32_len(chunks: Seq<[u8; 32]>)
    ensures
        flatten32(chunks).len() == 32 * chunks.len(),
    decreases chunks.len(),
{
    if chunks.len() > 0 {
        lemma_flatten32_len(chunks.drop_last());
    }
}

/// The Pedersen commitments of values under blindings, concatenated.
pub open spec fn pedersen_bytes(values: Seq<u64>, blindings: Seq<[u8; 32]>) -> Seq<u8>
    decreases values.len(),
{
    if values.len() == 0 || blindings.len() == 0 {
        Seq::empty()
    } else {
        pedersen_bytes(values.drop_last(), blindings.drop_last()) + pedersen_commitment(
            values.last(),
            blindings.last()@,
        )
    }
}

/// Commitments that are, one by one, the Pedersen commitments of the
/// values under the blindings concatenate to `pedersen_bytes`.
pub proof fn lemma_flatten_pedersen(c: Seq<[u8; 32]>, values: Seq<u64>, blindings: Seq<[u8; 32]>)
    requires
        c.len() == values.len(),
        blindings.len() == values.len(),
        forall|i: int| 0 <= i < c.len() ==> (#[trigger] c[i])@ == pedersen_commitment(values[i], blindings[i]@),
    ensures
        flatten32(c) == pedersen_bytes(values, blindings),
    decreases c.len(),
{
    if c.len() > 0 {
        let n = c.len() - 1;
        assert forall|i: int| 0 <= i < c.drop_last().len() implies (#[trigger] c.drop_last()[i])@
            == pedersen_commitment(values.drop_last()[i], blindings.drop_last()[i]@) by {
            assert(c.drop_last()[i] == c[i]);
        }
        lemma_flatten_pedersen(c.drop_last(), values.drop_last(), blindings.drop_last());
        assert(c[n]@ == pedersen_commitment(values[n], blindings[n]@));
    }
}

/// What a successful aggregate 32-bit range proof over `values` under the
/// transcript label `label` consists of: one Pedersen commitment per value
/// under some blinding, a proof of at least nine 32-byte elements that
/// parses back when the proof is small enough, and that is valid when every
/// value fits in 32 bits, unless it is degenerate.
pub open spec fn range_proof_output(values: Seq<u64>, proof: Seq<u8>, commitments: Seq<u8>, label: Seq<char>) -> bool {
    &&& commitments.len() == 32 * values.len()
    &&& exists|bl: Seq<[u8; 32]>| bl.len() == values.len() && commitments == #[trigger] pedersen_bytes(values, bl)
    &&& proof.len() >= 9 * 32
    &&& 32 * values.len() < 0x1_0000_0000 ==> range_proof_parses(proof)
    &&& all_below_pow2(values, 32) && !range_proof_degenerate(proof, commitments, 32, label) ==> range_proof_valid(
        proof,
        commitments,
        32,
        label,
    )
}

/// Serializes commitments, 32 bytes each, in order.
pub fn commitments_to_bytes(commitments: &Vec<[u8; 32]>) -> (b: Vec<u8>)
    ensures
        b@ == flatten32(commitments@),
{
    let mut out: Vec<u8> = Vec::new();
    let mut i: usize = 0;
    while i < commitments.len()
        invariant
            i <= commitments@.len(),
            out@ == flatten32(commitments@.take(i as int)),
        decreases commitments@.len() - i,
    {
        crate::bytes::append_bytes(&mut out, &commitments[i]);
        proof {
            assert(commitments@.take(i + 1).drop_last() =~= commitments@.take(i as int));
        }
        i = i + 1;
    }
    assert(commitments@.take(commitments@.len() as int) =~= commitments@);
    out
}

/// An aggregate 32-bit range proof over `values`, one blinding per value,
/// under the transcript label `label`: the proof bytes and the concatenated
/// commitments.
pub fn aggregate_range_proof(values: &Vec<u64>, blindings: &Vec<[u8; 32]>, label: &'static str) -> (r: Result<
    (Vec<u8>, Vec<u8>),
    bulletproofs::ProofError,
>)
    requires
        blindings@.len() == values@.len(),
    ensures
        r matches Ok((p, c)) ==> range_proof_output(values@, p@, c@, label@) && is_pow2(values@.len() as nat),
{
    match prove_multiple(values, blindings, 32, label) {
        Ok((proof_bytes, committed)) => {
            let commitment_bytes = commitments_to_bytes(&committed);
            proof {
                lemma_flatten_pedersen(committed@, values@, blindings@);
                lemma_flatten32_len(committed@);
                assert(commitment_bytes@ == pedersen_bytes(values@, blindings@));
            }
            Ok((proof_bytes, commitment_bytes))
        },
        Err(e) => Err(e),
    }
}

/// Splits bytes into consecutive 32-byte arrays (the length is a multiple
/// of 32).
pub fn split_into_chunks32(bytes: &[u8]) -> (chunks: Vec<[u8; 32]>)
    requires
        bytes@.len() % 32 == 0,
    ensures
        chunks@.len() == bytes@.len() / 32,
        flatten32(chunks@) == bytes@,
{
    let mut chunks: Vec<[u8; 32]> = Vec::new();
    let n = bytes.len() / 32;
    let mut i: usize = 0;
    while i < n
        invariant
            n == bytes@.len() / 32,
            bytes@.len() % 32 == 0,
            i <= n,
            chunks@.len() == i,
            flatten32(chunks@) == bytes@.subrange(0, 32 * i),
        decreases n - i,
    {
        let mut buf = [0u8; 32];
        let mut j: usize = 0;
        while j < 32
            invariant
                j <= 32,
                i < n,
                n == bytes@.len() / 32,
                bytes@.len() % 32 == 0,
                forall|k: int| 0 <= k < j ==> buf@[k] == bytes@[32 * i + k],
                bytes@.len() == bytes.len(),
            decreases 32 - j,
        {
            assert(32 * i + j < bytes@.len() && 32 * i <= bytes@.len()) by (nonlinear_arith)
                requires
                    i < n,
                    j < 32,
                    n == bytes@.len() / 32,
            ;
            let pos: usize = 32 * i + j;
            buf.set(j, bytes[pos]);
            j = j + 1;
        }
        let ghost prev = chunks@;
        chunks.push(buf);
        proof {
            assert(chunks@.drop_last() == prev);
            assert(buf@ =~= bytes@.subrange(32 * i, 32 * i + 32));
            assert(bytes@.subrange(0, 32 * (i + 1)) =~= bytes@.subrange(0, 32 * i) + bytes@.subrange(
                32 * i,
                32 * i + 32,
            ));
        }
        i = i + 1;
    }
    assert(bytes@.subrange(0, 32 * n) =~= bytes@);
    chunks
}

} // verus!
