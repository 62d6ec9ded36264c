[package]
name = "pinocchio_amm"
version = "0.1.0"
edition = "2021"
publish = false

[dependencies]
pinocchio = "=0.10.2"
pinocchio-token = "=0.5.0"
pinocchio-system = "=0.5.0"
pinocchio-associated-token-account = "=0.3.0"
solana-address = { version = "2.2.0", features = ["curve25519"] }
