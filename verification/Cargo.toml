[package]
name = "slq"
version = "0.1.0"
edition = "2021"
publish = false

[dependencies]
anyhow = "1"
borsh = "0.9"
env_logger = "0.9"
log = "0.4"
serde = { version = "1", features = ["derive"] }
serde_json = "1"
solana-cli-config = "~1.9"
solana-program = "~1.9"
solana-sdk = "~1.9"
structopt = "0.3"
