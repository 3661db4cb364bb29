[package]
name = "treasure_vault"
version = "0.1.0"
edition = "2021"
publish = false

[dependencies]
sha2 = "=0.10.9"
anchor-lang = { version = "=1.2.1", features = ["init-if-needed"] }
anchor-spl = { version = "=1.2.1", default-features = false, features = ["token", "solana-v3"] }
spl-token = { version = "=9.0.0", default-features = false }
solana-pubkey = { version = "=3.0.0", features = ["curve25519"] }
