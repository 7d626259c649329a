[package]
name = "wallet_storage"
version = "0.1.0"
edition = "2021"

[dependencies]
postgres = "0.19"
r2d2 = "0.8"
r2d2_postgres = "0.18"
serde = { version = "1", features = ["derive"] }
serde_json = "1"
