[package]
name = "artchain"
version = "0.1.0"
edition = "2021"
publish = false

[dependencies]
axum = "*"
serde = { version = "*", features = ["derive"] }
serde_json = "*"
solana-sdk = { version = "*", default-features = false }
tokio = { version = "*", features = ["full"] }
