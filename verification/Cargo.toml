[package]
name = "rate_relay"
version = "0.1.0"
edition = "2021"
publish = false

[dependencies]
rust_decimal = "*"
chrono = "*"
tokio = { version = "*", features = ["full"] }
axum = "*"
reqwest = { version = "*", default-features = false, features = ["json"] }
serde = { version = "*", features = ["derive"] }
serde_json = "*"
toml = "*"
anyhow = "*"
thiserror = "*"
prometheus = "*"
tracing = "*"
tracing-subscriber = { version = "*", features = ["env-filter"] }
dotenvy = "*"
