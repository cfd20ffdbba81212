[package]
name = "escrow_vault"
version = "0.1.0"
edition = "2021"
publish = false

[dependencies]
bs58 = "=0.5.1"
pinocchio = "=0.11.2"
pinocchio-associated-token-account = "=0.4.0"
pinocchio-log = "=0.5.1"
pinocchio-system = "=0.6.1"
pinocchio-token = "=0.7.0"
solana-address = { version = "=2.9.0", features = ["curve25519"] }
