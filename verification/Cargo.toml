[package]
name = "nano_tinytools"
version = "0.1.0"
edition = "2021"
publish = false

[dependencies]
blake2b_simd = "*"
ed25519-dalek = "*"
crossbeam-deque = "*"
serde = "*"
serde_derive = "*"
toml = "*"
