[package]
name = "pinocchio_vault"
version = "0.1.0"
edition = "2021"
publish = false

[dependencies]
pinocchio = { version = "=0.12.0", features = ["account-resize"] }
pinocchio-system = "=0.7.0"
pinocchio-log = "=0.5.1"
solana-address = { version = "=2.9.0", features = ["curve25519"] }
five8 = "=1.0.0"
