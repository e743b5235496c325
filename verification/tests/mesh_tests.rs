use zkpox::corroborate::{
    handle_corroborate_request, has_enough_witnesses, prepare_submission, CorroborateAction,
    CorroborateRequest, CorroborateResponse,
};
use zkpox::credential_program::{
    add_witness, revoke_credential, submit_credential, AddWitness, RevokeCredential, SubmitCredential,
    ZkPoxError, CREDENTIAL_SIZE, MAX_WITNESSES,
};
use zkpox::extension::{
    format_extension, has_zkpox_extension, verify_extension, AdvertisePayload, ExtensionVerifyResult,
    ZkPoxFields,
};

// ------------------------------------------------------------ extension

#[test]
fn test_format_extension() {
    let ext = format_extension("RESIDENCY", 2000, 30, 28, b"fake-proof-bytes", b"fake-commitments", &[0xAA; 32]);
    assert_eq!(ext.proof_type, "RESIDENCY");
    assert_eq!(ext.radius_m, 2000);
    assert_eq!(ext.count_proven, 28);
    assert!(!ext.proof_hash.is_empty());
    assert!(!ext.proof_bytes_b64.is_empty());
}

#[test]
fn format_extension_encodings() {
    let ext = format_extension("STABILITY", 5000, 90, 85, b"abc", b"commitments", &[0xAA; 32]);
    assert_eq!(ext.proof_hash, "ba7816bf8f01cfea414140de5dae2223b00361a396177a9cb410ff61f20015ad");
    assert_eq!(ext.proof_bytes_b64, "YWJj");
    assert_eq!(ext.commitments_b64, "Y29tbWl0bWVudHM=");
    assert_eq!(ext.center_hash, "aa".repeat(32));
    assert_eq!(ext.time_window_days, 90);
    let ext2 = format_extension("X", 1, 1, 1, b"ab", b"a", &[0x0F; 32]);
    assert_eq!(ext2.proof_bytes_b64, "YWI=");
    assert_eq!(ext2.commitments_b64, "YQ==");
    assert_eq!(ext2.center_hash, "0f".repeat(32));
}

fn fields(pt: Option<&str>, count: Option<u64>, days: Option<u64>, proof: Option<&str>, comm: Option<&str>) -> ZkPoxFields {
    ZkPoxFields {
        proof_type: pt.map(|s| s.to_string()),
        count_proven: count,
        time_window_days: days,
        proof_bytes_b64: proof.map(|s| s.to_string()),
        commitments_b64: comm.map(|s| s.to_string()),
    }
}

#[test]
fn test_no_extension() {
    let msg = AdvertisePayload { zk_pox: None };
    assert!(!has_zkpox_extension(&msg));
    assert!(matches!(verify_extension(&msg), ExtensionVerifyResult::NotPresent));
}

#[test]
fn test_valid_extension() {
    let msg = AdvertisePayload {
        zk_pox: Some(fields(Some("RESIDENCY"), Some(28), Some(30), Some("ZmFrZQ=="), Some("ZmFrZQ=="))),
    };
    assert!(has_zkpox_extension(&msg));
    match verify_extension(&msg) {
        ExtensionVerifyResult::Valid { proof_type, count_proven, time_window_days } => {
            assert_eq!(proof_type, "RESIDENCY");
            assert_eq!(count_proven, 28);
            assert_eq!(time_window_days, 30);
        }
        other => panic!("expected Valid, got {:?}", other),
    }
}

#[test]
fn test_malformed_extension() {
    let msg = AdvertisePayload { zk_pox: Some(fields(Some("RESIDENCY"), None, None, None, None)) };
    assert!(matches!(verify_extension(&msg), ExtensionVerifyResult::Malformed(_)));
}

#[test]
fn malformed_extension_names_first_missing_field() {
    let cases = [
        (fields(None, Some(1), Some(1), Some("a"), Some("b")), "missing proof_type"),
        (fields(Some("T"), None, Some(1), Some("a"), Some("b")), "missing count_proven"),
        (fields(Some("T"), Some(1), None, Some("a"), Some("b")), "missing time_window_days"),
        (fields(Some("T"), Some(1), Some(1), None, Some("b")), "missing proof_bytes_b64"),
        (fields(Some("T"), Some(1), Some(1), Some("a"), None), "missing commitments_b64"),
    ];
    for (f, msg) in cases {
        match verify_extension(&AdvertisePayload { zk_pox: Some(f) }) {
            ExtensionVerifyResult::Malformed(m) => assert_eq!(m, msg),
            other => panic!("expected Malformed, got {:?}", other),
        }
    }
    let big = AdvertisePayload { zk_pox: Some(fields(Some("T"), Some((1u64 << 32) + 7), Some(3), Some(""), Some(""))) };
    match verify_extension(&big) {
        ExtensionVerifyResult::Valid { count_proven, .. } => assert_eq!(count_proven, 7),
        other => panic!("expected Valid, got {:?}", other),
    }
}

// ---------------------------------------------------------- corroborate

fn response(key: u8, verified: bool, ts: i64) -> CorroborateResponse {
    CorroborateResponse { request_id: [0u8; 32], witness_pubkey: [key; 32], verified, timestamp: ts, signature: [0u8; 64] }
}

#[test]
fn test_has_enough_witnesses() {
    let responses = vec![response(1, true, 1000), response(2, true, 1001), response(3, false, 1002)];
    assert!(has_enough_witnesses(&responses, 2));
    assert!(!has_enough_witnesses(&responses, 3));
}

#[test]
fn test_prepare_submission() {
    let responses = vec![response(1, true, 1000), response(2, false, 1001)];
    let sub = prepare_submission([0xAA; 32], 0, [0xBB; 32], [0xCC; 32], &responses);
    assert_eq!(sub.witness_pubkeys.len(), 1);
    assert_eq!(sub.witness_pubkeys[0], [1u8; 32]);
    assert_eq!(sub.credential_id, [0xAA; 32]);
    assert_eq!(sub.public_inputs_hash, [0xCC; 32]);
}

fn corroborate_request(json: &[u8], ts: i64) -> CorroborateRequest {
    CorroborateRequest {
        request_id: [9u8; 32],
        agent_pubkey: [8u8; 32],
        proof_result_json: json.to_vec(),
        credential_id: [7u8; 32],
        timestamp: ts,
        signature: [0u8; 64],
    }
}

#[test]
fn corroborate_request_handling() {
    let now = 1_740_000_000i64;
    let ok = corroborate_request(br#"{"count_proven": 5}"#, now - 300);
    match handle_corroborate_request(&ok, &[3u8; 32], &[0u8; 64], now) {
        CorroborateAction::Attest(r) => {
            assert_eq!(r.request_id, [9u8; 32]);
            assert_eq!(r.witness_pubkey, [3u8; 32]);
            assert!(r.verified);
            assert_eq!(r.timestamp, now);
        }
        other => panic!("expected Attest, got {:?}", other),
    }
    let stale = corroborate_request(b"{}", now - 301);
    assert!(matches!(handle_corroborate_request(&stale, &[3u8; 32], &[0u8; 64], now), CorroborateAction::Ignore));
    let future = corroborate_request(b"{}", now + 301);
    assert!(matches!(handle_corroborate_request(&future, &[3u8; 32], &[0u8; 64], now), CorroborateAction::Ignore));
    let bad_json = corroborate_request(b"{not json", now);
    assert!(matches!(handle_corroborate_request(&bad_json, &[3u8; 32], &[0u8; 64], now), CorroborateAction::Ignore));
    let bad_utf8 = corroborate_request(&[0xFF, 0xFE], now);
    assert!(matches!(handle_corroborate_request(&bad_utf8, &[3u8; 32], &[0u8; 64], now), CorroborateAction::Ignore));
    let extreme = corroborate_request(b"{}", i64::MIN);
    assert!(matches!(handle_corroborate_request(&extreme, &[3u8; 32], &[0u8; 64], i64::MAX), CorroborateAction::Ignore));
}

// ----------------------------------------------------------- credential

fn submit_ctx() -> SubmitCredential {
    SubmitCredential { agent: [1u8; 32], credential_bump: 254, unix_timestamp: 1_750_000_000 }
}

#[test]
fn credential_submission_rules() {
    assert_eq!(CREDENTIAL_SIZE, 409);
    let ctx = submit_ctx();
    assert!(matches!(submit_credential(&ctx, [2; 32], 6, [3; 32], [4; 32], [5; 32], 1), Err(ZkPoxError::InvalidClaimType)));
    assert!(matches!(submit_credential(&ctx, [2; 32], 5, [3; 32], [4; 32], [5; 32], 0), Err(ZkPoxError::InvalidCountProven)));
    let (c, ev) = submit_credential(&ctx, [2; 32], 5, [3; 32], [4; 32], [5; 32], 28).unwrap();
    assert_eq!(c.version, 2);
    assert_eq!(c.agent_id, [1u8; 32]);
    assert_eq!(c.witness_count, 0);
    assert_eq!(c.count_proven, 28);
    assert_eq!(c.issued_at, 1_750_000_000);
    assert_eq!(c.bump, 254);
    assert!(!c.revoked);
    assert_eq!(ev.credential_id, [2u8; 32]);
    assert_eq!(ev.timestamp, 1_750_000_000);
}

#[test]
fn witnesses_are_unique_and_bounded() {
    let (mut c, _) = submit_credential(&submit_ctx(), [2; 32], 0, [3; 32], [4; 32], [5; 32], 1).unwrap();
    for k in 0..MAX_WITNESSES as u8 {
        let ev = add_witness(&AddWitness { witness: [10 + k; 32], credential_key: [99; 32] }, &mut c).unwrap();
        assert_eq!(ev.witness_count, k + 1);
        assert_eq!(ev.credential, [99u8; 32]);
    }
    let before = c.clone();
    assert!(matches!(
        add_witness(&AddWitness { witness: [50; 32], credential_key: [99; 32] }, &mut c),
        Err(ZkPoxError::MaxWitnessesReached)
    ));
    assert_eq!(c.witnesses, before.witnesses);

    let (mut d, _) = submit_credential(&submit_ctx(), [2; 32], 0, [3; 32], [4; 32], [5; 32], 1).unwrap();
    add_witness(&AddWitness { witness: [10; 32], credential_key: [99; 32] }, &mut d).unwrap();
    assert!(matches!(
        add_witness(&AddWitness { witness: [10; 32], credential_key: [99; 32] }, &mut d),
        Err(ZkPoxError::AlreadyWitnessed)
    ));
    assert_eq!(d.witness_count, 1);
}

#[test]
fn revocation_rules() {
    let (mut c, _) = submit_credential(&submit_ctx(), [2; 32], 0, [3; 32], [4; 32], [5; 32], 1).unwrap();
    assert!(matches!(
        revoke_credential(&RevokeCredential { agent: [9; 32], credential_key: [99; 32] }, &mut c),
        Err(ZkPoxError::Unauthorized)
    ));
    assert!(!c.revoked);
    let ev = revoke_credential(&RevokeCredential { agent: [1; 32], credential_key: [99; 32] }, &mut c).unwrap();
    assert_eq!(ev.agent, [1u8; 32]);
    assert!(c.revoked);
    assert!(matches!(
        revoke_credential(&RevokeCredential { agent: [1; 32], credential_key: [99; 32] }, &mut c),
        Err(ZkPoxError::CredentialRevoked)
    ));
    assert!(matches!(
        add_witness(&AddWitness { witness: [10; 32], credential_key: [99; 32] }, &mut c),
        Err(ZkPoxError::CredentialRevoked)
    ));
    assert_eq!(c.witness_count, 0);
}
