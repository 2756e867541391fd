[package]
name = "jito_bundle"
version = "0.1.0"
edition = "2021"
publish = false

[dependencies]
base64 = "=0.22.1"
log = "=0.4.34"
reqwest = { version = "=0.12.28", features = ["json"] }
serde = { version = "=1.0.229", features = ["derive"] }
serde_json = "=1.0.154"
solana-program = "=3.0.0"
solana-sdk = "=3.0.0"
solana-system-interface = { version = "=2.0.0", features = ["bincode"] }
spl-token = "=9.0.0"
spl-token-interface = "=2.0.0"
tokio = { version = "=1.54.1", features = ["time", "rt", "macros"] }
