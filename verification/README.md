# zkpox

Zero-knowledge proofs of experience over signed GPS histories, verified
with Verus.

- `src/` is the verified library: point selection for location claims,
  range statements and Bulletproof witnesses, proof generation and
  verification, temporal proofs, absence and travel analyses, hash
  commitments and Ed25519 checks of GPS points, the mesh extension and the
  CORROBORATE protocol, and the credential program's state machine. Calls
  into `sha2`, `ed25519-dalek`, `bulletproofs`, `curve25519-dalek-ng`,
  `merlin`, `rand`, `hex`, `base64` and `serde_json` go through small
  trusted wrappers whose contracts are stated in `src/crypto.rs`,
  `src/rangeproof.rs`, `src/extension.rs` and `src/corroborate.rs`.
- `app/` is the unverified shell: floating-point geometry (great-circle
  distances, geofence bounding boxes, centroids, clustering, anti-spoofing),
  JSON wire types, the clock, and the C ABI used by the mobile bridge.
- `tests/` runs the library with the real outside crates.

GPS coordinates enter the library as IEEE-754 bit patterns (what is hashed
and signed) and as coordinates scaled by `1e7` (what the range proofs are
about); `app/` derives both from the same `f64`.
