[package]
name = "stablecoin"
version = "0.1.0"
edition = "2021"
publish = false

[dependencies]
anyhow = "*"
clap = { version = "*", features = ["derive"] }
dirs = "*"
serde = { version = "*", features = ["derive"] }
serde_json = "*"
serde_yaml = "*"
sha2 = "=0.10.9"
solana-pubkey = { version = "*", features = ["curve25519", "sha2", "std"] }
toml = "*"
