[package]
name = "solana_http_api"
version = "0.1.0"
edition = "2021"
publish = false

[dependencies]
axum = "0.7"
base64 = "0.21"
bs58 = "0.4"
ed25519-dalek = "1.0"
rand = "0.7"
serde = { version = "1", features = ["derive"] }
serde_json = "1"
solana-program = "1.18"
solana-sdk = "1.18"
spl-token = "4.0"
thiserror = "1"
tokio = { version = "1", features = ["macros", "net", "rt-multi-thread"] }
tower-http = { version = "0.5", features = ["cors"] }
