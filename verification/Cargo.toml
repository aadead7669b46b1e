[package]
name = "executive"
version = "0.1.0"
edition = "2021"
publish = false

[dependencies]
ethereum-types = "0.4"
keccak-hash = "0.1"
parity-bytes = "0.1"
rlp = { version = "0.3", features = ["ethereum"] }
serde = { version = "1", features = ["derive"] }
serde_json = "1"
