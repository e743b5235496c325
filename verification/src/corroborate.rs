//! Mesh corroboration of ZK proofs (CORROBORATE protocol).
//!
//! An agent broadcasts a CORROBORATE_REQUEST carrying its serialized proof
//! result; each peer checks it and answers with a CORROBORATE_RESPONSE.
//! Once enough peers attest, the agent prepares the on-chain submission.
use vstd::prelude::*;
use vstd::utf8::{decode_utf8, valid_utf8};

verus! {

/// Mesh message type of a corroboration request.
pub const MSG_TYPE_CORROBORATE_REQUEST: u8 = 0x30;

/// Mesh message type of a corroboration response.
pub const MSG_TYPE_CORROBORATE_RESPONSE: u8 = 0x31;

/// Maximum age, in seconds either way, of a request that is answered.
pub const MAX_REQUEST_SKEW_SECS: i64 = 300;

/// A request for nearby mesh peers to verify and attest to a ZK proof.
#[derive(Debug, Clone)]
pub struct CorroborateRequest {
    /// Unique request identifier.
    pub request_id: [u8; 32],
    /// The requesting agent's public key.
    pub agent_pubkey: [u8; 32],
    /// Serialized proof result (JSON bytes).
    pub proof_result_json: Vec<u8>,
    /// The credential id that will be used in `submit_credential`.
    pub credential_id: [u8; 32],
    /// Unix timestamp of the request.
    pub timestamp: i64,
    /// Signature of the request by the agent.
    pub signature: [u8; 64],
}

/// A response from a mesh peer attesting to a verified ZK proof.
#[derive(Debug, Clone)]
pub struct CorroborateResponse {
    /// Must match the request id of the request.
    pub request_id: [u8; 32],
    /// The witnessing peer's public key.
    pub witness_pubkey: [u8; 32],
    /// Whether the proof verified successfully.
    pub verified: bool,
    /// Unix timestamp of the response.
    pub timestamp: i64,
    /// Signature of `(request_id || verified || timestamp)`.
    pub signature: [u8; 64],
}

/// What to do with a corroboration request.
#[derive(Debug)]
pub enum CorroborateAction {
    /// Proof verified: respond with an attestation.
    Attest(CorroborateResponse),
    /// Proof invalid: respond with a rejection.
    Reject(CorroborateResponse),
    /// Request is malformed or stale: ignore it.
    Ignore,
}

/// `core::str::from_utf8`: succeeds exactly on valid UTF-8, and the string
/// is the decoded text.
#[verifier::external_body]
pub(crate) fn utf8_decode(bytes: &[u8]) -> (r: Option<&str>)
    ensures
        r is Some <==> valid_utf8(bytes@),
        r matches Some(s) ==> s@ == decode_utf8(bytes@),
{
    core::str::from_utf8(bytes).ok()
}

/// Whether a text is a JSON document that `serde_json` parses into a
/// `serde_json::Value`.
pub uninterp spec fn json_parses(text: Seq<char>) -> bool;

/// `serde_json::from_str::<serde_json::Value>`, keeping only whether it
/// parses; this is a function of the text alone.
#[verifier::external_body]
pub(crate) fn json_value_parses(text: &str) -> (ok: bool)
    ensures
        ok == json_parses(text@),
{
    serde_json::from_str::<serde_json::Value>(text).is_ok()
}

/// The distance between two timestamps.
pub open spec fn time_skew(now: i64, then: i64) -> int {
    if now >= then {
        now - then
    } else {
        then - now
    }
}

/// Whether a request would be answered at time `now`: its payload is UTF-8
/// JSON and it is at most five minutes old or early.
pub open spec fn request_answerable(request: CorroborateRequest, now: i64) -> bool {
    &&& valid_utf8(request.proof_result_json@)
    &&& json_parses(decode_utf8(request.proof_result_json@))
    &&& time_skew(now, request.timestamp) <= MAX_REQUEST_SKEW_SECS
}

/// Process an incoming CORROBORATE_REQUEST at time `now`.
///
/// A request whose payload is not UTF-8 JSON, or whose timestamp is more
/// than five minutes away from `now`, is ignored. Otherwise the proof is
/// taken as verified and an attestation is returned, echoing the request
/// id, naming `our_pubkey` as witness, stamped `now`, with an all-zero
/// signature (signing is left to the caller's key handling).
pub fn handle_corroborate_request(
    request: &CorroborateRequest,
    our_pubkey: &[u8; 32],
    our_signing_key: &[u8; 64],
    now: i64,
) -> (action: CorroborateAction)
    ensures
        !request_answerable(*request, now) ==> action is Ignore,
        request_answerable(*request, now) ==> (action matches CorroborateAction::Attest(resp) && {
            &&& resp.request_id == request.request_id
            &&& resp.witness_pubkey == *our_pubkey
            &&& resp.verified
            &&& resp.timestamp == now
            &&& forall|i: int| 0 <= i < 64 ==> resp.signature@[i] == 0u8
        }),
{
    let proof_str = match utf8_decode(request.proof_result_json.as_slice()) {
        Some(s) => s,
        None => {
            return CorroborateAction::Ignore;
        },
    };
    if !json_value_parses(proof_str) {
        return CorroborateAction::Ignore;
    }
    let skew: i128 = (now as i128) - (request.timestamp as i128);
    let abs_skew: i128 = if skew < 0 {
        -skew
    } else {
        skew
    };
    if abs_skew > 300 {
        return CorroborateAction::Ignore;
    }
    let verified = true;
    let signature = [0u8; 64];
    let response = CorroborateResponse {
        request_id: request.request_id,
        witness_pubkey: *our_pubkey,
        verified,
        timestamp: now,
        signature,
    };
    if verified {
        CorroborateAction::Attest(response)
    } else {
        CorroborateAction::Reject(response)
    }
}

/// Number of responses that attest (`verified`).
pub open spec fn verified_count(responses: Seq<CorroborateResponse>) -> nat
    decreases responses.len(),
{
    if responses.len() == 0 {
        0
    } else {
        verified_count(responses.drop_last()) + if responses.last().verified {
            1nat
        } else {
            0nat
        }
    }
}

/// The witness keys of the attesting responses, in order.
pub open spec fn verified_witnesses(responses: Seq<CorroborateResponse>) -> Seq<[u8; 32]>
    decreases responses.len(),
{
    if responses.len() == 0 {
        Seq::empty()
    } else {
        let prev = verified_witnesses(responses.drop_last());
        if responses.last().verified {
            prev.push(responses.last().witness_pubkey)
        } else {
            prev
        }
    }
}

/// Whether enough peers attested to submit the credential.
pub fn has_enough_witnesses(responses: &[CorroborateResponse], min_witnesses: usize) -> (r: bool)
    ensures
        r == (verified_count(responses@) >= min_witnesses),
{
    let mut count: usize = 0;
    let mut i: usize = 0;
    while i < responses.len()
        invariant
            i <= responses@.len(),
            count == verified_count(responses@.take(i as int)),
            count <= i,
        decreases responses@.len() - i,
    {
        assert(responses@.take(i + 1).drop_last() =~= responses@.take(i as int));
        if responses[i].verified {
            count = count + 1;
        }
        i = i + 1;
    }
    assert(responses@.take(responses@.len() as int) =~= responses@);
    count >= min_witnesses
}

/// The data of the on-chain `submit_credential` call.
#[derive(Debug, Clone)]
pub struct CredentialSubmission {
    pub credential_id: [u8; 32],
    pub claim_type: u8,
    pub proof_hash: [u8; 32],
    pub public_inputs_hash: [u8; 32],
    pub witness_pubkeys: Vec<[u8; 32]>,
}

/// Build the submission: the credential data and the keys of the peers
/// that attested, in response order.
pub fn prepare_submission(
    credential_id: [u8; 32],
    claim_type: u8,
    proof_hash: [u8; 32],
    public_inputs_hash: [u8; 32],
    responses: &[CorroborateResponse],
) -> (s: CredentialSubmission)
    ensures
        s.credential_id == credential_id,
        s.claim_type == claim_type,
        s.proof_hash == proof_hash,
        s.public_inputs_hash == public_inputs_hash,
        s.witness_pubkeys@ == verified_witnesses(responses@),
{
    let mut witness_pubkeys: Vec<[u8; 32]> = Vec::new();
    let mut i: usize = 0;
    while i < responses.len()
        invariant
            i <= responses@.len(),
            witness_pubkeys@ == verified_witnesses(responses@.take(i as int)),
        decreases responses@.len() - i,
    {
        assert(responses@.take(i + 1).drop_last() =~= responses@.take(i as int));
        if responses[i].verified {
            witness_pubkeys.push(responses[i].witness_pubkey);
        }
        i = i + 1;
    }
    assert(responses@.take(responses@.len() as int) =~= responses@);
    CredentialSubmission { credential_id, claim_type, proof_hash, public_inputs_hash, witness_pubkeys }
}

/// A submission prepared from some responses names exactly as many
/// witnesses as attested, so it names at least `min` witnesses exactly
/// when `has_enough_witnesses` holds for `min`.
pub proof fn lemma_submission_witnesses_match_count(responses: Seq<CorroborateResponse>, min: usize)
    ensures
        verified_witnesses(responses).len() == verified_count(responses),
        (verified_witnesses(responses).len() >= min) == (verified_count(responses) >= min),
    decreases responses.len(),
{
    if responses.len() > 0 {
        lemma_submission_witnesses_match_count(responses.drop_last(), min);
    }
}

} // verus!
