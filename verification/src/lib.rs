//! Zero-knowledge proofs of experience over signed GPS histories.
//!
//! The library holds the integer logic of the protocol: selecting the GPS
//! points that qualify for a claim, turning them into range statements and
//! Bulletproof witnesses, checking proofs, hashing commitments, formatting
//! mesh extensions and running the credential state machine. Geometry that
//! needs floating point (great-circle distances, bounding boxes, centroids)
//! is computed by the caller and handed in as scaled integers and IEEE-754
//! bit patterns.
use vstd::prelude::*;

pub mod bytes;
pub mod crypto;
pub mod types;
pub mod commitment;
pub mod circuit;
pub mod rangeproof;
pub mod prover;
pub mod proof_verifier;
pub mod temporal;
pub mod absence;
pub mod antispoof;
pub mod travel;
pub mod extension;
pub mod corroborate;
pub mod credential_program;
