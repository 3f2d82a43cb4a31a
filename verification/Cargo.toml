[package]
name = "web3-proxy"
version = "0.1.0"
edition = "2021"
publish = false

[dependencies]
anyhow = "1"
async-trait = "0.1"
axum = { version = "=0.6.20", default-features = false, features = ["headers", "json"] }
chrono = { version = "=0.4.45", features = ["serde"] }
parking_lot = "0.12"
rust_decimal = "=1.43.0"
sea-orm = { version = "=0.12.15", default-features = false, features = ["macros", "with-chrono", "with-rust_decimal"] }
sea-orm-migration = { version = "=0.12.15", default-features = false }
serde = { version = "1", features = ["derive"] }
serde_json = { version = "=1.0.154", features = ["raw_value"] }
tokio = { version = "=1.54.1", features = ["sync", "time"] }
tracing = "0.1"
