[package]
name = "zkpox"
version = "0.1.0"
edition = "2021"
publish = false

[dependencies]
bulletproofs = "4.0"
curve25519-dalek-ng = "4"
merlin = "3"
rand = "0.8"
sha2 = "0.10"
ed25519-dalek = "2"
hex = "0.4"
base64 = "0.22"
serde = { version = "1", features = ["derive"] }
serde_json = "1"
thiserror = "1"
