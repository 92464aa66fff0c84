[package]
name = "tx_admission"
version = "0.1.0"
edition = "2021"
publish = false

[dependencies]
parity-crypto = { version = "*", features = ["publickey"] }

[dev-dependencies]
rlp = "*"
