[package]
name = "solana_indexer"
version = "0.1.0"
edition = "2021"
publish = false

[dependencies]
axum = { version = "0.7", default-features = false, features = ["http1", "json", "tokio"] }
dotenvy = "=0.15.7"
serde = { version = "=1.0.229", features = ["derive"] }
solana-sdk = "=2.3.1"
solana-transaction-status = "=2.3.13"
tokio = { version = "=1.54.1", features = ["macros", "net", "rt-multi-thread", "signal", "time"] }
