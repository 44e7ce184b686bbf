[package]
name = "svm-agreement-registry"
version = "0.1.0"
edition = "2021"
publish = false

[dependencies]
anchor-lang = "=0.31.2"
solana-program = "=2.3.0"

[dev-dependencies]
solana-ed25519-program = "=2.2.3"
solana-secp256k1-program = { version = "=2.2.3", features = ["bincode"] }
