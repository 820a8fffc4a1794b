[package]
name = "solana_explorer"
version = "0.1.0"
edition = "2021"
publish = false

[dependencies]
solana-sdk = "*"
axum = "*"
tokio = { version = "*", features = ["full"] }
serde = { version = "*", features = ["derive"] }
serde_json = "*"
tower-http = { version = "*", features = ["cors"] }
uuid = { version = "*", features = ["v4"] }
chrono = "*"
dotenvy = "*"
