[package]
name = "chronx"
version = "0.1.0"
edition = "2021"
publish = false

[dependencies]
blake3 = "*"
sha3 = "*"
bs58 = "*"
pqcrypto-dilithium = "*"
pqcrypto-traits = "*"
