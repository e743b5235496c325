//! Hash commitments over positions, timestamps, public inputs and proofs,
//! and Ed25519 checks of GPS point signatures.
use vstd::prelude::*;
use crate::bytes::{all_zero, append_bytes, is_all_zero, le_i64, le_u32, le_u64, push_i64_le, push_u32_le, push_u64_le};
use crate::crypto::{ed25519_accepts, ed25519_verify, sha256, sha256_spec};
use crate::types::SignedGPSPoint;
use vstd::bytes::{lemma_auto_spec_u64_to_from_le_bytes, spec_u64_from_le_bytes, spec_u64_to_le_bytes};

verus! {

/// The bytes hashed by a position commitment: `lat || lng || salt`.
pub open spec fn position_message(lat_bits: u64, lng_bits: u64, salt: Seq<u8>) -> Seq<u8> {
    le_u64(lat_bits) + le_u64(lng_bits) + salt
}

/// The bytes hashed by a time commitment: `timestamp || salt`.
pub open spec fn time_message(timestamp: i64, salt: Seq<u8>) -> Seq<u8> {
    le_i64(timestamp) + salt
}

/// The bytes hashed for the public inputs:
/// `center_hash || radius || time_window_days || min_count || count_proven`.
pub open spec fn public_inputs_message(
    center_hash: Seq<u8>,
    radius_m: u32,
    time_window_days: u32,
    min_count: u32,
    count_proven: u32,
) -> Seq<u8> {
    center_hash + le_u32(radius_m) + le_u32(time_window_days) + le_u32(min_count) + le_u32(
        count_proven,
    )
}

/// The bytes hashed to form the message a GPS point's signature covers:
/// `lat || lng || timestamp`.
pub open spec fn gps_message_bytes(lat_bits: u64, lng_bits: u64, timestamp: i64) -> Seq<u8> {
    le_u64(lat_bits) + le_u64(lng_bits) + le_i64(timestamp)
}

/// The message a GPS point's signature covers binds the whole point: it is
/// the 24 bytes of the latitude, the longitude and the timestamp, so two
/// points with the same message agree on all three (a signature over one
/// point does not cover a point with another timestamp).
pub proof fn lemma_gps_message_binds_point(
    lat1: u64,
    lng1: u64,
    ts1: i64,
    lat2: u64,
    lng2: u64,
    ts2: i64,
)
    ensures
        gps_message_bytes(lat1, lng1, ts1).len() == 24,
        gps_message_bytes(lat1, lng1, ts1) == gps_message_bytes(lat2, lng2, ts2) ==> lat1 == lat2 && lng1
            == lng2 && ts1 == ts2,
{
    lemma_auto_spec_u64_to_from_le_bytes();
    let m1 = gps_message_bytes(lat1, lng1, ts1);
    let m2 = gps_message_bytes(lat2, lng2, ts2);
    assert(le_u64(lat1).len() == 8 && le_u64(lng1).len() == 8 && le_i64(ts1).len() == 8);
    assert(le_u64(lat2).len() == 8 && le_u64(lng2).len() == 8 && le_i64(ts2).len() == 8);
    if m1 == m2 {
        assert(m1.subrange(0, 8) =~= le_u64(lat1));
        assert(m2.subrange(0, 8) =~= le_u64(lat2));
        assert(m1.subrange(8, 16) =~= le_u64(lng1));
        assert(m2.subrange(8, 16) =~= le_u64(lng2));
        assert(m1.subrange(16, 24) =~= le_i64(ts1));
        assert(m2.subrange(16, 24) =~= le_i64(ts2));
        let u1 = ts1 as u64;
        let u2 = ts2 as u64;
        assert(spec_u64_from_le_bytes(spec_u64_to_le_bytes(u1)) == u1);
        assert(spec_u64_from_le_bytes(spec_u64_to_le_bytes(u2)) == u2);
        assert(u1 == u2);
        assert(ts1 == ts2) by (bit_vector)
            requires
                ts1 as u64 == ts2 as u64,
        ;
    }
}

/// Commit to a GPS position without revealing it:
/// `SHA-256(lat_le_bytes || lng_le_bytes || salt)`.
pub fn position_commitment(lat_bits: u64, lng_bits: u64, salt: &[u8; 32]) -> (c: [u8; 32])
    ensures
        c@ == sha256_spec(position_message(lat_bits, lng_bits, salt@)),
{
    let mut msg: Vec<u8> = Vec::new();
    push_u64_le(&mut msg, lat_bits);
    push_u64_le(&mut msg, lng_bits);
    append_bytes(&mut msg, salt);
    sha256(msg.as_slice())
}

/// Commit to a timestamp without revealing it:
/// `SHA-256(timestamp_le_bytes || salt)`.
pub fn time_commitment(timestamp: i64, salt: &[u8; 32]) -> (c: [u8; 32])
    ensures
        c@ == sha256_spec(time_message(timestamp, salt@)),
{
    let mut msg: Vec<u8> = Vec::new();
    push_i64_le(&mut msg, timestamp);
    append_bytes(&mut msg, salt);
    sha256(msg.as_slice())
}

/// Hash of the public inputs, for compact on-chain storage.
pub fn public_inputs_hash(
    center_hash: &[u8; 32],
    radius_m: u32,
    time_window_days: u32,
    min_count: u32,
    count_proven: u32,
) -> (h: [u8; 32])
    ensures
        h@ == sha256_spec(
            public_inputs_message(center_hash@, radius_m, time_window_days, min_count, count_proven),
        ),
{
    let mut msg: Vec<u8> = Vec::new();
    append_bytes(&mut msg, center_hash);
    push_u32_le(&mut msg, radius_m);
    push_u32_le(&mut msg, time_window_days);
    push_u32_le(&mut msg, min_count);
    push_u32_le(&mut msg, count_proven);
    sha256(msg.as_slice())
}

/// Hash of a completed proof for on-chain reference: `SHA-256(proof_bytes)`.
pub fn proof_hash(proof_bytes: &[u8]) -> (h: [u8; 32])
    ensures
        h@ == sha256_spec(proof_bytes@),
{
    sha256(proof_bytes)
}

/// The message signed when recording a GPS point:
/// `SHA-256(lat_le_bytes || lng_le_bytes || timestamp_le_bytes)`.
pub fn gps_point_message(lat_bits: u64, lng_bits: u64, timestamp: i64) -> (m: [u8; 32])
    ensures
        m@ == sha256_spec(gps_message_bytes(lat_bits, lng_bits, timestamp)),
        m@ == sha256_spec(le_u64(lat_bits) + le_u64(lng_bits) + le_i64(timestamp)),
{
    let mut msg: Vec<u8> = Vec::new();
    push_u64_le(&mut msg, lat_bits);
    push_u64_le(&mut msg, lng_bits);
    push_i64_le(&mut msg, timestamp);
    sha256(msg.as_slice())
}

/// Whether a signature is a placeholder that unsigned points carry: empty,
/// or 64 zero bytes.
pub open spec fn is_placeholder_signature(sig: Seq<u8>) -> bool {
    sig.len() == 0 || (sig.len() == 64 && all_zero(sig))
}

/// Whether a GPS point's signature is accepted under `public_key`: it is
/// empty, or it is 64 bytes long and either all zeros or an Ed25519
/// signature of the point's message.
pub open spec fn gps_signature_accepted(
    lat_bits: u64,
    lng_bits: u64,
    timestamp: i64,
    signature: Seq<u8>,
    public_key: Seq<u8>,
) -> bool {
    ||| signature.len() == 0
    ||| signature.len() == 64 && (all_zero(signature) || ed25519_accepts(
        public_key,
        sha256_spec(gps_message_bytes(lat_bits, lng_bits, timestamp)),
        signature,
    ))
}

/// Verify the Ed25519 signature on a GPS point.
///
/// An empty signature and a 64-byte all-zero signature are accepted as
/// unsigned placeholders. Any other signature that is not 64 bytes long is
/// refused. Any other
/// signature is accepted exactly when Ed25519 verification of it over
/// `gps_point_message(lat, lng, timestamp)` under the public key succeeds
/// (a key that does not decode fails).
pub fn verify_gps_signature(
    lat_bits: u64,
    lng_bits: u64,
    timestamp: i64,
    signature: &[u8],
    public_key: &[u8; 32],
) -> (ok: bool)
    ensures
        ok == gps_signature_accepted(lat_bits, lng_bits, timestamp, signature@, public_key@),
        signature@.len() != 64 && signature@.len() != 0 ==> !ok,
        is_placeholder_signature(signature@) ==> ok,
        signature@.len() == 64 && !all_zero(signature@) ==> ok == ed25519_accepts(
            public_key@,
            sha256_spec(le_u64(lat_bits) + le_u64(lng_bits) + le_i64(timestamp)),
            signature@,
        ),
{
    if signature.len() == 0 {
        return true;
    }
    if signature.len() != 64 {
        return false;
    }
    if is_all_zero(signature) {
        return true;
    }
    let msg = gps_point_message(lat_bits, lng_bits, timestamp);
    ed25519_verify(public_key, &msg, signature)
}

/// Number of points whose signature is accepted under `public_key`.
pub open spec fn accepted_count(points: Seq<SignedGPSPoint>, public_key: Seq<u8>) -> nat
    decreases points.len(),
{
    if points.len() == 0 {
        0
    } else {
        let p = points.last();
        accepted_count(points.drop_last(), public_key) + if gps_signature_accepted(
            p.lat_bits,
            p.lng_bits,
            p.timestamp,
            p.signature@,
            public_key,
        ) {
            1nat
        } else {
            0nat
        }
    }
}

/// Along a history, both the accepted and the refused signatures only
/// accumulate.
pub proof fn lemma_accepted_count_monotone(points: Seq<SignedGPSPoint>, public_key: Seq<u8>, i: nat, j: nat)
    requires
        i <= j <= points.len(),
    ensures
        accepted_count(points.take(i as int), public_key) <= accepted_count(points.take(j as int), public_key),
        accepted_count(points.take(j as int), public_key) <= j,
        i - accepted_count(points.take(i as int), public_key) <= j - accepted_count(
            points.take(j as int),
            public_key,
        ),
    decreases j,
{
    if j > 0 {
        assert(points.take(j as int).drop_last() =~= points.take(j - 1));
        if i < j {
            lemma_accepted_count_monotone(points, public_key, i, (j - 1) as nat);
        } else {
            lemma_accepted_count_monotone(points, public_key, (j - 1) as nat, (j - 1) as nat);
        }
    }
}

/// Number of points whose signature is the all-zero placeholder.
pub open spec fn placeholder_count(points: Seq<SignedGPSPoint>) -> nat
    decreases points.len(),
{
    if points.len() == 0 {
        0
    } else {
        placeholder_count(points.drop_last()) + if is_placeholder_signature(
            points.last().signature@,
        ) {
            1nat
        } else {
            0nat
        }
    }
}

/// Number of points whose signature is neither empty nor 64 bytes long.
pub open spec fn malformed_count(points: Seq<SignedGPSPoint>) -> nat
    decreases points.len(),
{
    if points.len() == 0 {
        0
    } else {
        malformed_count(points.drop_last()) + if points.last().signature@.len() != 64
            && points.last().signature@.len() != 0 {
            1nat
        } else {
            0nat
        }
    }
}

/// Verify all GPS point signatures in a batch; returns `(valid, invalid)`:
/// the number of points whose signature `verify_gps_signature` accepts,
/// and the number of the others. Placeholder signatures count as valid
/// and signatures of the wrong length as invalid.
pub fn verify_all_signatures(points: &[SignedGPSPoint], public_key: &[u8; 32]) -> (r: (u32, u32))
    requires
        accepted_count(points@, public_key@) <= u32::MAX,
        points@.len() - accepted_count(points@, public_key@) <= u32::MAX,
    ensures
        r.0 == accepted_count(points@, public_key@),
        r.0 + r.1 == points@.len(),
        r.0 >= placeholder_count(points@),
        r.1 >= malformed_count(points@),
{
    let mut valid: u32 = 0;
    let mut invalid: u32 = 0;
    let mut i: usize = 0;
    while i < points.len()
        invariant
            i <= points@.len(),
            accepted_count(points@, public_key@) <= u32::MAX,
            points@.len() - accepted_count(points@, public_key@) <= u32::MAX,
            valid + invalid == i,
            valid == accepted_count(points@.take(i as int), public_key@),
            valid >= placeholder_count(points@.take(i as int)),
            invalid >= malformed_count(points@.take(i as int)),
        decreases points@.len() - i,
    {
        let p = &points[i];
        let ok = verify_gps_signature(p.lat_bits, p.lng_bits, p.timestamp, p.signature.as_slice(), public_key);
        proof {
            assert(points@.take(i + 1).drop_last() =~= points@.take(i as int));
            assert(points@.take(points@.len() as int) =~= points@);
            lemma_accepted_count_monotone(points@, public_key@, (i + 1) as nat, points@.len());
        }
        if ok {
            valid = valid + 1;
        } else {
            invalid = invalid + 1;
        }
        i = i + 1;
    }
    assert(points@.take(points@.len() as int) =~= points@);
    (valid, invalid)
}

} // verus!
