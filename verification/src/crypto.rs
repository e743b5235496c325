//! SHA-256 and Ed25519 primitives, called from `sha2` and `ed25519-dalek`.
use vstd::prelude::*;

verus! {

/// The SHA-256 digest of a byte string (FIPS 180-4), as computed by the
/// `sha2` crate.
pub uninterp spec fn sha256_spec(data: Seq<u8>) -> Seq<u8>;

/// `sha2::Sha256::digest`: the digest is `sha256_spec` of the input bytes.
/// The contract claims that the crate computes one fixed function of its
/// input (the SHA-256 standard), nothing about that function's values.
#[verifier::external_body]
pub(crate) fn sha256(data: &[u8]) -> (digest: [u8; 32])
    ensures
        digest@ == sha256_spec(data@),
{
    <sha2::Sha256 as sha2::Digest>::digest(data).into()
}

/// Whether Ed25519 verification, as `ed25519-dalek` performs it, accepts
/// the 64-byte signature `sig` over `msg` under the 32-byte public key
/// `key`: the key must decompress to a curve point, the signature's scalar
/// half must be canonical, and the recomputed `R` must equal the
/// signature's `R` half (RFC 8032). The outcome depends on these bytes
/// alone.
pub uninterp spec fn ed25519_accepts(key: Seq<u8>, msg: Seq<u8>, sig: Seq<u8>) -> bool;

/// `ed25519_dalek::VerifyingKey::from_bytes` on the key,
/// `ed25519_dalek::Signature::from_slice` on the signature, then
/// `ed25519_dalek::Verifier::verify`: `true` exactly when all three succeed,
/// which is `ed25519_accepts` of the three byte strings. `from_slice` only
/// fails on a length other than 64, which `requires` rules out.
#[verifier::external_body]
pub(crate) fn ed25519_verify(key: &[u8; 32], msg: &[u8], sig: &[u8]) -> (ok: bool)
    requires
        sig@.len() == 64,
    ensures
        ok == ed25519_accepts(key@, msg@, sig@),
{
    match (ed25519_dalek::VerifyingKey::from_bytes(key), ed25519_dalek::Signature::from_slice(sig)) {
        (Ok(vk), Ok(s)) => ed25519_dalek::Verifier::verify(&vk, msg, &s).is_ok(),
        _ => false,
    }
}

} // verus!
