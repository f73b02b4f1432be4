[package]
name = "oake"
version = "0.1.0"
edition = "2021"
publish = false

[dependencies]
curve25519-dalek = { version = "4", features = ["digest", "rand_core"] }
sha3 = "0.10"
subtle = "2"
rand = "0.8"
