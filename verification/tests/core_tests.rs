use ed25519_dalek::Signer;
use sha2::Digest;
use zkpox::absence::classify_absence;
use zkpox::antispoof::SpoofVerdict;
use zkpox::circuit::{build_range_statements, count_qualifying_points, point_in_bbox, RangeStatement};
use zkpox::commitment::{
    gps_point_message, position_commitment, proof_hash, public_inputs_hash, time_commitment,
    verify_all_signatures, verify_gps_signature,
};
use zkpox::proof_verifier::{hash_public_inputs, verify_center_hash, verify_proof, VerifierError};
use zkpox::prover::{coordinate_offsets, generate_proof, ProverError, StabilitySelection};
use zkpox::rangeproof::next_power_of_two;
use zkpox::temporal::{generate_temporal_proof, verify_temporal_proof, TemporalError};
use zkpox::travel::{count_distinct_days, points_in_window, rank_regions, summarize_travel, ClusterDraft};
use zkpox::types::{BoundingBox, ClaimType, ProofRequest, PublicInputs, SignedGPSPoint};

const NOW: i64 = 1_740_500_000;

fn scale(coord: f64) -> i64 {
    (coord * 1e7) as i64
}

fn bbox(center_lat: f64, center_lng: f64, radius_m: u32) -> BoundingBox {
    let r = radius_m as f64;
    let delta_lat = r / 111_320.0;
    let meters_per_deg_lng = 111_320.0 * center_lat.to_radians().cos();
    let delta_lng = if meters_per_deg_lng > 0.0 { r / meters_per_deg_lng } else { 360.0 };
    BoundingBox {
        lat_min: scale(center_lat - delta_lat),
        lat_max: scale(center_lat + delta_lat),
        lng_min: scale(center_lng - delta_lng),
        lng_max: scale(center_lng + delta_lng),
    }
}

fn gps_sig(lat: f64, lng: f64, ts: i64, signature: Vec<u8>) -> SignedGPSPoint {
    SignedGPSPoint {
        lat_bits: lat.to_bits(),
        lng_bits: lng.to_bits(),
        lat_scaled: scale(lat),
        lng_scaled: scale(lng),
        timestamp: ts,
        accuracy_bits: 5.0f32.to_bits(),
        signature,
    }
}

fn gps(lat: f64, lng: f64, ts: i64) -> SignedGPSPoint {
    gps_sig(lat, lng, ts, vec![0u8; 64])
}

#[allow(clippy::too_many_arguments)]
fn request(
    claim_type: ClaimType,
    center_lat: f64,
    center_lng: f64,
    radius_m: u32,
    time_start: i64,
    time_end: i64,
    min_count: u32,
    night_only: bool,
) -> ProofRequest {
    ProofRequest {
        claim_type,
        center_lat_bits: center_lat.to_bits(),
        center_lng_bits: center_lng.to_bits(),
        bbox: bbox(center_lat, center_lng, radius_m),
        radius_m,
        time_start,
        time_end,
        min_count,
        night_only,
    }
}

fn haversine(lat1: f64, lng1: f64, lat2: f64, lng2: f64) -> f64 {
    let d_lat = (lat2 - lat1).to_radians();
    let d_lng = (lng2 - lng1).to_radians();
    let a = (d_lat / 2.0).sin().powi(2)
        + lat1.to_radians().cos() * lat2.to_radians().cos() * (d_lng / 2.0).sin().powi(2);
    6_371_000.0 * 2.0 * a.sqrt().asin()
}

/// The centroid analysis of a STABILITY claim, as the application layer
/// computes it.
fn stability_selection(points: &[(f64, f64, i64)], req: &ProofRequest) -> StabilitySelection {
    let window: Vec<(usize, &(f64, f64, i64))> = points
        .iter()
        .enumerate()
        .filter(|(_, p)| p.2 >= req.time_start && p.2 <= req.time_end)
        .collect();
    let n = window.len() as f64;
    let (lat, lng) = if window.is_empty() {
        (0.0, 0.0)
    } else {
        (
            window.iter().map(|(_, p)| p.0).sum::<f64>() / n,
            window.iter().map(|(_, p)| p.1).sum::<f64>() / n,
        )
    };
    let qualifying_indices = window
        .iter()
        .filter(|(_, p)| haversine(p.0, p.1, lat, lng) <= req.radius_m as f64)
        .map(|(i, _)| *i)
        .collect();
    StabilitySelection {
        centroid_lat_bits: lat.to_bits(),
        centroid_lng_bits: lng.to_bits(),
        centroid_bbox: bbox(lat, lng, req.radius_m),
        qualifying_indices,
    }
}

fn warsaw_track(n: usize) -> Vec<(f64, f64, i64)> {
    (0..n)
        .map(|i| (52.2297 + (i as f64) * 0.00001, 21.0122 + (i as f64) * 0.00001, 1_740_000_000 + (i as i64) * 300))
        .collect()
}

fn to_points(track: &[(f64, f64, i64)]) -> Vec<SignedGPSPoint> {
    track.iter().map(|p| gps(p.0, p.1, p.2)).collect()
}

// ---------------------------------------------------------------- types

#[test]
fn test_claim_type_roundtrip() {
    for v in 0..=5u8 {
        let ct = ClaimType::from_u8(v).unwrap();
        assert_eq!(ct as u8, v);
        assert_eq!(ct.to_u8(), v);
    }
    assert!(ClaimType::from_u8(6).is_none());
}

#[test]
fn claim_type_names() {
    assert_eq!(ClaimType::Residency.as_str(), "RESIDENCY");
    assert_eq!(ClaimType::Commute.as_str(), "COMMUTE");
    assert_eq!(ClaimType::Attendance.as_str(), "ATTENDANCE");
    assert_eq!(ClaimType::Absence.as_str(), "ABSENCE");
    assert_eq!(ClaimType::Stability.as_str(), "STABILITY");
    assert_eq!(ClaimType::Travel.as_str(), "TRAVEL");
    assert!(ClaimType::from_u8(255).is_none());
}

// ----------------------------------------------------------- commitment

#[test]
fn test_position_commitment_deterministic() {
    let salt = [0xABu8; 32];
    let c1 = position_commitment(52.2297f64.to_bits(), 21.0122f64.to_bits(), &salt);
    let c2 = position_commitment(52.2297f64.to_bits(), 21.0122f64.to_bits(), &salt);
    assert_eq!(c1, c2);
}

#[test]
fn test_position_commitment_different_salt() {
    let salt1 = [0xABu8; 32];
    let salt2 = [0xCDu8; 32];
    let c1 = position_commitment(52.2297f64.to_bits(), 21.0122f64.to_bits(), &salt1);
    let c2 = position_commitment(52.2297f64.to_bits(), 21.0122f64.to_bits(), &salt2);
    assert_ne!(c1, c2);
}

#[test]
fn test_position_commitment_different_location() {
    let salt = [0xABu8; 32];
    let c1 = position_commitment(52.2297f64.to_bits(), 21.0122f64.to_bits(), &salt);
    let c2 = position_commitment(48.8566f64.to_bits(), 2.3522f64.to_bits(), &salt);
    assert_ne!(c1, c2);
}

#[test]
fn test_time_commitment_deterministic() {
    let salt = [0x11u8; 32];
    let c1 = time_commitment(1_740_000_000, &salt);
    let c2 = time_commitment(1_740_000_000, &salt);
    assert_eq!(c1, c2);
}

#[test]
fn test_gps_point_message() {
    let msg = gps_point_message(52.2297f64.to_bits(), 21.0122f64.to_bits(), 1_740_000_000);
    assert_eq!(msg.len(), 32);
}

#[test]
fn test_proof_hash() {
    let h = proof_hash(b"some proof data");
    assert_eq!(h.len(), 32);
}

#[test]
fn proof_hash_is_sha256() {
    let h = proof_hash(b"abc");
    assert_eq!(hex::encode(h), "ba7816bf8f01cfea414140de5dae2223b00361a396177a9cb410ff61f20015ad");
}

#[test]
fn commitments_hash_the_little_endian_encoding() {
    let salt = [7u8; 32];
    let mut msg = Vec::new();
    msg.extend_from_slice(&52.2297f64.to_le_bytes());
    msg.extend_from_slice(&21.0122f64.to_le_bytes());
    msg.extend_from_slice(&salt);
    let expected: [u8; 32] = sha2::Sha256::digest(&msg).into();
    assert_eq!(position_commitment(52.2297f64.to_bits(), 21.0122f64.to_bits(), &salt), expected);

    let mut tmsg = Vec::new();
    tmsg.extend_from_slice(&(-5i64).to_le_bytes());
    tmsg.extend_from_slice(&salt);
    let texpected: [u8; 32] = sha2::Sha256::digest(&tmsg).into();
    assert_eq!(time_commitment(-5, &salt), texpected);

    let mut pmsg = Vec::new();
    pmsg.extend_from_slice(&[0xABu8; 32]);
    for v in [200u32, 30, 10, 15] {
        pmsg.extend_from_slice(&v.to_le_bytes());
    }
    let pexpected: [u8; 32] = sha2::Sha256::digest(&pmsg).into();
    assert_eq!(public_inputs_hash(&[0xABu8; 32], 200, 30, 10, 15), pexpected);
}

fn make_test_key() -> (ed25519_dalek::SigningKey, [u8; 32]) {
    let mut secret = [0u8; 32];
    rand::RngCore::fill_bytes(&mut rand::thread_rng(), &mut secret);
    let sk = ed25519_dalek::SigningKey::from_bytes(&secret);
    let pk = sk.verifying_key().to_bytes();
    (sk, pk)
}

#[test]
fn test_verify_gps_signature_valid() {
    let (key, pub_key) = make_test_key();
    let lat = 52.2297f64;
    let lng = 21.0122f64;
    let ts = 1_740_000_000i64;
    let msg = gps_point_message(lat.to_bits(), lng.to_bits(), ts);
    let sig = key.sign(&msg);
    assert!(verify_gps_signature(lat.to_bits(), lng.to_bits(), ts, &sig.to_bytes(), &pub_key));
}

#[test]
fn test_verify_gps_signature_wrong_key() {
    let (key1, _) = make_test_key();
    let (_, wrong_pub) = make_test_key();
    let msg = gps_point_message(52.23f64.to_bits(), 21.01f64.to_bits(), 1_700_000_000);
    let sig = key1.sign(&msg);
    assert!(!verify_gps_signature(52.23f64.to_bits(), 21.01f64.to_bits(), 1_700_000_000, &sig.to_bytes(), &wrong_pub));
}

#[test]
fn test_verify_gps_signature_tampered_coords() {
    let (key, pub_key) = make_test_key();
    let msg = gps_point_message(52.23f64.to_bits(), 21.01f64.to_bits(), 1_700_000_000);
    let sig = key.sign(&msg);
    assert!(!verify_gps_signature(52.24f64.to_bits(), 21.01f64.to_bits(), 1_700_000_000, &sig.to_bytes(), &pub_key));
}

#[test]
fn test_verify_zero_signature_passes() {
    let zero_sig = vec![0u8; 64];
    let any_key = [0u8; 32];
    assert!(verify_gps_signature(52.23f64.to_bits(), 21.01f64.to_bits(), 1_700_000_000, &zero_sig, &any_key));
}

#[test]
fn signature_of_wrong_length_fails() {
    assert!(!verify_gps_signature(0, 0, 0, &[0u8; 63], &[0u8; 32]));
    assert!(!verify_gps_signature(0, 0, 0, &[1u8; 10], &[0u8; 32]));
}

#[test]
fn empty_signature_is_a_placeholder() {
    assert!(verify_gps_signature(0, 0, 0, &[], &[0u8; 32]));
}

#[test]
fn undecodable_key_fails() {
    // y = 2 is not the y-coordinate of a point on the curve.
    let mut key = [0u8; 32];
    key[0] = 2;
    let mut sig = [0u8; 64];
    sig[0] = 1;
    assert!(!verify_gps_signature(0, 0, 0, &sig, &key));
}

#[test]
fn test_verify_all_signatures_batch() {
    let (key, pub_key) = make_test_key();
    let points: Vec<SignedGPSPoint> = (0..5)
        .map(|i| {
            let lat = 52.23 + (i as f64) * 0.001;
            let lng = 21.01f64;
            let ts = 1_700_000_000 + i * 3600;
            let msg = gps_point_message(lat.to_bits(), lng.to_bits(), ts);
            let sig = key.sign(&msg);
            gps_sig(lat, lng, ts, sig.to_bytes().to_vec())
        })
        .collect();
    let (valid, invalid) = verify_all_signatures(&points, &pub_key);
    assert_eq!(valid, 5);
    assert_eq!(invalid, 0);
}

#[test]
fn verify_all_signatures_counts_each_point_once() {
    let points = vec![
        gps_sig(52.0, 21.0, 1, vec![0u8; 64]),
        gps_sig(52.0, 21.0, 2, vec![1u8; 10]),
        gps_sig(52.0, 21.0, 3, vec![0u8; 64]),
    ];
    assert_eq!(verify_all_signatures(&points, &[0u8; 32]), (2, 1));
}

// -------------------------------------------------------------- circuit

#[test]
fn test_point_in_bbox() {
    let b = bbox(52.2297, 21.0122, 200);
    assert!(point_in_bbox(scale(52.2297), scale(21.0122), b.lat_min, b.lat_max, b.lng_min, b.lng_max));
    assert!(!point_in_bbox(scale(48.8566), scale(2.3522), b.lat_min, b.lat_max, b.lng_min, b.lng_max));
}

#[test]
fn point_in_bbox_bounds_are_inclusive() {
    assert!(point_in_bbox(10, 20, 10, 10, 20, 20));
    assert!(!point_in_bbox(9, 20, 10, 11, 20, 21));
    assert!(!point_in_bbox(10, 22, 10, 11, 20, 21));
}

#[test]
fn test_count_qualifying_points() {
    let points = vec![gps(52.2297, 21.0122, 1000), gps(52.2298, 21.0123, 2000), gps(48.8566, 2.3522, 3000)];
    let req = request(ClaimType::Attendance, 52.2297, 21.0122, 200, 0, 5000, 1, false);
    let (count, indices) = count_qualifying_points(&points, &req);
    assert_eq!(count, 2);
    assert_eq!(indices, vec![0, 1]);
}

#[test]
fn count_qualifying_points_night_and_window() {
    // 2024-01-01 00:00 UTC is 1_704_067_200.
    let midnight = 1_704_067_200i64;
    let points = vec![
        gps(52.2297, 21.0122, midnight + 23 * 3600), // 23:00 night
        gps(52.2297, 21.0122, midnight + 12 * 3600), // noon
        gps(52.2297, 21.0122, midnight + 6 * 3600),  // 06:00 night
        gps(52.2297, 21.0122, midnight + 7 * 3600),  // 07:00 day
        gps(52.2297, 21.0122, midnight + 3 * 86_400), // outside window
    ];
    let req = request(ClaimType::Residency, 52.2297, 21.0122, 200, midnight, midnight + 86_400, 1, true);
    let (count, indices) = count_qualifying_points(&points, &req);
    assert_eq!(count, 2);
    assert_eq!(indices, vec![0, 2]);
    let day_req = request(ClaimType::Residency, 52.2297, 21.0122, 200, midnight, midnight + 86_400, 1, false);
    assert_eq!(count_qualifying_points(&points, &day_req).1, vec![0, 1, 2, 3]);
}

#[test]
fn test_range_statement_validity() {
    let valid = RangeStatement { value: 50, lower: 10, upper: 100 };
    assert!(valid.is_valid());
    let invalid = RangeStatement { value: 5, lower: 10, upper: 100 };
    assert!(!invalid.is_valid());
}

#[test]
fn range_statements_two_per_point() {
    let points = vec![gps(52.2297, 21.0122, 1000), gps(48.8566, 2.3522, 3000)];
    let b = bbox(52.2297, 21.0122, 200);
    let st = build_range_statements(&points, &[0, 1], b.lat_min, b.lat_max, b.lng_min, b.lng_max);
    assert_eq!(st.len(), 4);
    assert_eq!(st[0].value, scale(52.2297));
    assert_eq!(st[1].value, scale(21.0122));
    assert_eq!(st[2].lower, b.lat_min);
    assert_eq!(st[3].upper, b.lng_max);
    assert!(st[0].is_valid() && st[1].is_valid());
    assert!(!st[2].is_valid() && !st[3].is_valid());
}

// --------------------------------------------------------------- prover

#[test]
fn test_generate_proof_success() {
    let points = to_points(&warsaw_track(10));
    let req = request(ClaimType::Attendance, 52.2297, 21.0122, 500, 1_740_000_000 - 1, 1_740_000_000 + 10_000, 5, false);
    let result = generate_proof(&points, &req, &None, NOW).unwrap();
    assert!(result.count_proven() >= 5);
    assert_eq!(result.claim_type, ClaimType::Attendance);
    assert!(!result.proof_bytes.is_empty());
    assert!(!result.commitments.is_empty());
}

#[test]
fn test_proof_has_commitments() {
    let points = to_points(&warsaw_track(4));
    let req = request(ClaimType::Residency, 52.2297, 21.0122, 500, 1_740_000_000 - 1, 1_740_000_000 + 10_000, 2, false);
    let result = generate_proof(&points, &req, &None, NOW).unwrap();
    assert!(result.commitments.len() >= 2 * 32);
    assert_eq!(result.commitments.len() % 32, 0);
}

#[test]
fn test_generate_proof_insufficient_points() {
    let points = to_points(&warsaw_track(2));
    let req = request(ClaimType::Residency, 52.2297, 21.0122, 500, 1_740_000_000 - 1, 1_740_000_000 + 10_000, 100, false);
    assert!(matches!(
        generate_proof(&points, &req, &None, NOW),
        Err(ProverError::InsufficientPoints { found: 2, required: 100 })
    ));
}

#[test]
fn test_generate_proof_empty_input() {
    let req = request(ClaimType::Attendance, 52.2297, 21.0122, 500, 1_000, 2_000, 1, false);
    assert!(matches!(generate_proof(&[], &req, &None, NOW), Err(ProverError::EmptyInput)));
}

#[test]
fn generate_proof_rejects_bad_requests() {
    let points = to_points(&warsaw_track(3));
    let zero_radius = request(ClaimType::Attendance, 52.2297, 21.0122, 0, 1_000, 2_000, 1, false);
    match generate_proof(&points, &zero_radius, &None, NOW) {
        Err(ProverError::InvalidRequest(m)) => assert_eq!(m, "radius must be > 0"),
        other => panic!("unexpected {:?}", other),
    }
    let reversed = request(ClaimType::Attendance, 52.2297, 21.0122, 500, 2_000, 2_000, 1, false);
    match generate_proof(&points, &reversed, &None, NOW) {
        Err(ProverError::InvalidRequest(m)) => assert_eq!(m, "time_start must be < time_end"),
        other => panic!("unexpected {:?}", other),
    }
}

#[test]
fn generate_proof_refuses_min_count_above_proof_capacity() {
    // 40 qualifying points, but a proof covers at most 32: the request
    // could never pass verification, so it is refused.
    let points = to_points(&warsaw_track(40));
    let req = request(ClaimType::Attendance, 52.2297, 21.0122, 500, 1_740_000_000 - 1, 1_740_000_000 + 3 * 86_400, 33, false);
    match generate_proof(&points, &req, &None, NOW) {
        Err(ProverError::InvalidRequest(m)) => assert_eq!(m, "min_count must be <= 32"),
        other => panic!("unexpected {:?}", other),
    }
    // Too few points is reported first.
    let req = request(ClaimType::Attendance, 52.2297, 21.0122, 500, 1_740_000_000 - 1, 1_740_000_000 + 3 * 86_400, 100, false);
    assert!(matches!(
        generate_proof(&points, &req, &None, NOW),
        Err(ProverError::InsufficientPoints { found: 40, required: 100 })
    ));
}

#[test]
fn generated_proof_verifies_with_32_points() {
    let points = to_points(&warsaw_track(40));
    let req = request(ClaimType::Attendance, 52.2297, 21.0122, 500, 1_740_000_000 - 1, 1_740_000_000 + 3 * 86_400, 32, false);
    let r = generate_proof(&points, &req, &None, NOW).unwrap();
    assert_eq!(r.public_inputs.count_proven, 32);
    assert!(verify_proof(&r).is_ok());
}

#[test]
fn test_deterministic_center_hash() {
    let points = to_points(&warsaw_track(4));
    let req = request(ClaimType::Attendance, 52.2297, 21.0122, 500, 1_740_000_000 - 1, 1_740_000_000 + 10_000, 2, false);
    let r1 = generate_proof(&points, &req, &None, NOW).unwrap();
    let r2 = generate_proof(&points, &req, &None, NOW).unwrap();
    assert_eq!(r1.public_inputs.center_hash, r2.public_inputs.center_hash);
}

#[test]
fn generated_public_inputs() {
    let points = to_points(&warsaw_track(40));
    let req = request(ClaimType::Attendance, 52.2297, 21.0122, 500, 1_740_000_000 - 1, 1_740_000_000 + 3 * 86_400, 5, false);
    let r = generate_proof(&points, &req, &None, NOW).unwrap();
    assert_eq!(r.public_inputs.count_proven, 32);
    assert_eq!(r.public_inputs.time_window_days, 3);
    assert_eq!(r.public_inputs.radius_m, 500);
    assert_eq!(r.public_inputs.min_count, 5);
    assert_eq!(r.generated_at, NOW);
    assert_eq!(r.total_points_evaluated, 40);
    assert_eq!(r.commitments.len(), 64 * 32);
}

#[test]
fn coordinate_offsets_are_padded() {
    let points = to_points(&warsaw_track(3));
    let b = BoundingBox { lat_min: scale(52.2297) - 10, lat_max: 0, lng_min: scale(21.0122), lng_max: 0 };
    let v = coordinate_offsets(&points, &[0, 2], &b);
    assert_eq!(v.len(), 4);
    assert_eq!(v[0], 10);
    assert_eq!(v[1], 0);
    assert_eq!(v[2], (scale(52.2297 + 0.00002) - b.lat_min) as u64);
    let w = coordinate_offsets(&points, &[0, 1, 2], &b);
    assert_eq!(w.len(), 8);
    assert_eq!(&w[6..], &[0, 0]);
    assert_eq!(next_power_of_two(0), 1);
    assert_eq!(next_power_of_two(5), 8);
    assert_eq!(next_power_of_two(64), 64);
}

#[test]
fn test_stability_proof_tight_cluster() {
    let track = warsaw_track(10);
    let points = to_points(&track);
    let req = request(ClaimType::Stability, 0.0, 0.0, 2000, 1_740_000_000 - 1, 1_740_000_000 + 10_000, 5, false);
    let sel = stability_selection(&track, &req);
    let result = generate_proof(&points, &req, &Some(sel), NOW).unwrap();
    assert_eq!(result.claim_type, ClaimType::Stability);
    assert!(result.count_proven() >= 5);
    assert!(!result.proof_bytes.is_empty());
}

#[test]
fn test_stability_proof_spread_fails() {
    let track = vec![
        (52.2297, 21.0122, 1_740_000_000),
        (50.0647, 19.9450, 1_740_001_000),
        (54.3520, 18.6466, 1_740_002_000),
    ];
    let points = to_points(&track);
    let req = request(ClaimType::Stability, 0.0, 0.0, 2000, 1_739_999_000, 1_740_100_000, 3, false);
    let sel = stability_selection(&track, &req);
    assert!(matches!(
        generate_proof(&points, &req, &Some(sel), NOW),
        Err(ProverError::InsufficientPoints { .. })
    ));
}

// ------------------------------------------------------------- verifier

#[test]
fn test_verify_valid_proof() {
    let points = to_points(&warsaw_track(20));
    let req = request(ClaimType::Attendance, 52.2297, 21.0122, 500, 1_740_000_000 - 1, 1_740_000_000 + 100_000, 5, false);
    let result = generate_proof(&points, &req, &None, NOW).unwrap();
    let verify_result = verify_proof(&result);
    assert!(verify_result.is_ok(), "Valid proof should verify: {:?}", verify_result.err());
}

#[test]
fn test_tampered_proof_fails() {
    let points = to_points(&warsaw_track(20));
    let req = request(ClaimType::Attendance, 52.2297, 21.0122, 500, 1_740_000_000 - 1, 1_740_000_000 + 100_000, 5, false);
    let mut result = generate_proof(&points, &req, &None, NOW).unwrap();
    if let Some(byte) = result.proof_bytes.get_mut(10) {
        *byte ^= 0xFF;
    }
    assert!(verify_proof(&result).is_err(), "Tampered proof should fail");
}

#[test]
fn verifier_error_cases() {
    let points = to_points(&warsaw_track(6));
    let req = request(ClaimType::Attendance, 52.2297, 21.0122, 500, 1_740_000_000 - 1, 1_740_000_000 + 100_000, 5, false);
    let good = generate_proof(&points, &req, &None, NOW).unwrap();

    let mut low = good.clone();
    low.public_inputs.min_count = 7;
    assert!(matches!(verify_proof(&low), Err(VerifierError::CountBelowMinimum { proven: 6, required: 7 })));

    let mut zero = good.clone();
    zero.public_inputs.center_hash = [0u8; 32];
    match verify_proof(&zero) {
        Err(VerifierError::InconsistentInputs(m)) => assert_eq!(m, "center_hash is all zeros"),
        other => panic!("unexpected {:?}", other),
    }

    let mut garbage = good.clone();
    garbage.proof_bytes = vec![1, 2, 3];
    assert!(matches!(verify_proof(&garbage), Err(VerifierError::DeserializationError(_))));

    let mut short = good.clone();
    short.commitments.truncate(32);
    assert!(matches!(
        verify_proof(&short),
        Err(VerifierError::CommitmentMismatch { expected: 512, got: 32 })
    ));

    let mut other_count = good.clone();
    other_count.public_inputs.count_proven = 9;
    other_count.public_inputs.min_count = 1;
    assert!(matches!(
        verify_proof(&other_count),
        Err(VerifierError::CommitmentMismatch { expected: 1024, got: 512 })
    ));
}

#[test]
fn test_verify_center_hash_match() {
    let points = to_points(&warsaw_track(20));
    let req = request(ClaimType::Attendance, 52.2297, 21.0122, 500, 1_740_000_000 - 1, 1_740_000_000 + 100_000, 5, false);
    let result = generate_proof(&points, &req, &None, NOW).unwrap();
    assert!(verify_center_hash(&result.public_inputs.center_hash, &result));
    assert!(!verify_center_hash(&[0xFFu8; 32], &result));
}

#[test]
fn test_hash_public_inputs_deterministic() {
    let pi = PublicInputs { center_hash: [0xABu8; 32], radius_m: 200, time_window_days: 30, min_count: 10, count_proven: 15 };
    assert_eq!(hash_public_inputs(&pi), hash_public_inputs(&pi));
    assert_eq!(hash_public_inputs(&pi), public_inputs_hash(&[0xABu8; 32], 200, 30, 10, 15));
}

// ------------------------------------------------------------- temporal

fn temporal_points(n: usize, base_ts: i64, interval: i64) -> Vec<SignedGPSPoint> {
    (0..n).map(|i| gps(52.2297 + (i as f64) * 0.00001, 21.0122, base_ts + (i as i64) * interval)).collect()
}

#[test]
fn test_temporal_proof_roundtrip() {
    let base = 1_740_000_000i64;
    let points = temporal_points(10, base, 3600);
    let indices: Vec<usize> = (0..10).collect();
    let result = generate_temporal_proof(&points, &indices, base - 1, base + 40_000).expect("proof generation should succeed");
    assert_eq!(result.count, 10);
    assert!(result.time_window_seconds > 0);
    let verify = verify_temporal_proof(&result);
    assert!(verify.is_ok(), "valid temporal proof should verify: {:?}", verify.err());
}

#[test]
fn test_temporal_proof_tampered_fails() {
    let base = 1_740_000_000i64;
    let points = temporal_points(5, base, 7200);
    let indices: Vec<usize> = (0..5).collect();
    let mut result = generate_temporal_proof(&points, &indices, base - 1, base + 40_000).expect("proof generation should succeed");
    if let Some(byte) = result.proof_bytes.get_mut(10) {
        *byte ^= 0xFF;
    }
    assert!(verify_temporal_proof(&result).is_err(), "tampered temporal proof should fail");
}

#[test]
fn test_temporal_empty_input() {
    let points = temporal_points(5, 1_000_000, 3600);
    let result = generate_temporal_proof(&points, &[], 1_000_000, 2_000_000);
    assert!(result.is_err());
}

#[test]
fn test_temporal_invalid_window() {
    let points = temporal_points(5, 1_000_000, 3600);
    let indices: Vec<usize> = (0..5).collect();
    let result = generate_temporal_proof(&points, &indices, 2_000_000, 1_000_000);
    assert!(result.is_err());
}

#[test]
fn test_temporal_single_point() {
    let base = 1_740_000_000i64;
    let points = temporal_points(1, base, 0);
    let result = generate_temporal_proof(&points, &[0], base - 100, base + 100).expect("single point proof should work");
    assert_eq!(result.count, 1);
    assert!(verify_temporal_proof(&result).is_ok());
}

#[test]
fn test_temporal_filters_out_of_window() {
    let base = 1_740_000_000i64;
    let points = vec![gps(52.0, 21.0, base + 100), gps(52.0, 21.0, base + 500_000), gps(52.0, 21.0, base + 200)];
    let indices: Vec<usize> = (0..3).collect();
    let result = generate_temporal_proof(&points, &indices, base, base + 1000).expect("should succeed with in-window points");
    assert_eq!(result.count, 2, "only 2 of 3 points are in the window");
    assert!(verify_temporal_proof(&result).is_ok());
}

#[test]
fn temporal_error_variants() {
    let base = 1_740_000_000i64;
    let points = temporal_points(3, base, 10);
    assert!(matches!(generate_temporal_proof(&points, &[0], base, base), Err(TemporalError::InvalidWindow)));
    assert!(matches!(generate_temporal_proof(&points, &[], base, base + 1), Err(TemporalError::NoPointsInWindow)));
    assert!(matches!(
        generate_temporal_proof(&points, &[0, 1, 2], base + 1000, base + 2000),
        Err(TemporalError::NoPointsInWindow)
    ));
    let mut r = generate_temporal_proof(&points, &[0, 1, 2], base, base + 100).unwrap();
    assert_eq!(r.commitments.len(), 4 * 32);
    r.count = 5;
    assert!(matches!(verify_temporal_proof(&r), Err(TemporalError::CommitmentMismatch { expected: 256, got: 128 })));
    r.proof_bytes = vec![0u8; 31];
    assert!(matches!(verify_temporal_proof(&r), Err(TemporalError::Deserialization(_))));
}

#[test]
fn temporal_long_window() {
    let base = 0i64;
    let points = vec![gps(1.0, 1.0, 5_000_000_000), gps(1.0, 1.0, 10)];
    let r = generate_temporal_proof(&points, &[0, 1], base, 6_000_000_000).unwrap();
    assert_eq!(r.count, 2);
    assert_eq!(r.time_window_seconds, 6_000_000_000);
    assert!(verify_temporal_proof(&r).is_ok());
}

// -------------------------------------------------------------- absence

#[test]
fn classify_absence_splits_window() {
    let points = vec![
        gps(52.2300, 21.0125, 1_700_000_100),
        gps(50.0647, 19.9450, 1_700_001_000),
        gps(52.2297, 21.0122, 1_600_000_000),
    ];
    let req = request(ClaimType::Absence, 52.2297, 21.0122, 5000, 1_700_000_000, 1_700_100_000, 1, false);
    let a = classify_absence(&points, &req);
    assert_eq!(a.total_in_window, 2);
    assert_eq!(a.violation_count, 1);
    assert_eq!(a.outside_indices, vec![1]);
}

#[test]
fn classify_absence_empty_window() {
    let points = vec![gps(52.2297, 21.0122, 1_600_000_000)];
    let req = request(ClaimType::Absence, 52.2297, 21.0122, 5000, 1_700_000_000, 1_700_100_000, 1, false);
    let a = classify_absence(&points, &req);
    assert_eq!(a.total_in_window, 0);
    assert_eq!(a.violation_count, 0);
    assert!(a.outside_indices.is_empty());
}

// --------------------------------------------------------------- travel

#[test]
fn distinct_days_are_counted_once() {
    let base = 1_700_006_400i64;
    assert_eq!(count_distinct_days(&[base, base + 1800, base + 3600]), 1);
    assert_eq!(count_distinct_days(&[0, 86_400, 86_399, 2 * 86_400]), 3);
    assert_eq!(count_distinct_days(&[]), 0);
    // Day numbers round toward zero: -1 and 1 both fall on day 0.
    assert_eq!(count_distinct_days(&[-1, 1, -86_400]), 2);
}

#[test]
fn window_selection() {
    let points = vec![gps(1.0, 1.0, 5), gps(1.0, 1.0, 50), gps(1.0, 1.0, 10)];
    assert_eq!(points_in_window(&points, 5, 10), vec![0, 2]);
}

fn draft(tag: u64, indices: Vec<usize>, days: &[i64]) -> ClusterDraft {
    ClusterDraft {
        centroid_lat_bits: tag,
        centroid_lng_bits: tag + 100,
        point_indices: indices,
        timestamps: days.iter().map(|d| d * 86_400 + 10).collect(),
    }
}

#[test]
fn regions_ranked_by_days_stably() {
    let clusters = vec![
        draft(1, vec![0, 1, 2], &[0, 1, 2]),
        draft(2, vec![3], &[10]),
        draft(3, vec![4, 5], &[20, 21, 21]),
        draft(4, vec![6, 7, 8, 9], &[30, 31, 32, 33]),
        draft(5, vec![10], &[40]),
    ];
    let regions = rank_regions(&clusters);
    let order: Vec<u64> = regions.iter().map(|r| r.centroid_lat_bits).collect();
    assert_eq!(order, vec![4, 1, 3, 2, 5]);
    let days: Vec<u32> = regions.iter().map(|r| r.distinct_days).collect();
    assert_eq!(days, vec![4, 3, 2, 1, 1]);
    assert_eq!(regions[2].point_count, 2);
    let t = summarize_travel(regions, 12);
    assert_eq!(t.qualifying_indices, vec![6, 7, 8, 9, 0, 1, 2, 4, 5, 3, 10]);
    assert_eq!(t.anchor_lat_bits, 4);
    assert_eq!(t.anchor_lng_bits, 104);
    assert_eq!(t.total_in_window, 12);
    let empty = summarize_travel(vec![], 0);
    assert_eq!(empty.anchor_lat_bits, 0.0f64.to_bits());
    assert!(empty.qualifying_indices.is_empty());
}

#[test]
fn spoof_verdicts_are_distinct() {
    assert_ne!(SpoofVerdict::Clean, SpoofVerdict::Suspicious);
    assert_ne!(SpoofVerdict::Suspicious, SpoofVerdict::LikelySpoofed);
    assert_eq!(SpoofVerdict::Clean, SpoofVerdict::Clean.clone());
}
