[package]
name = "wallet_relay"
version = "0.1.0"
edition = "2021"
publish = false

[dependencies]
anyhow = "*"
axum = "*"
serde = { version = "*", features = ["derive"] }
tower-http = { version = "*", features = ["cors"] }
