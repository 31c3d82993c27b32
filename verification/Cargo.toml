[package]
name = "escrow_core"
version = "0.1.0"
edition = "2021"
publish = false

[dependencies]
solana-program = "*"
solana-pubkey = { version = "*", features = ["sha2", "curve25519"] }

[dev-dependencies]
borsh = "*"
