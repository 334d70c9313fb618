[package]
name = "kucoin_bot"
version = "0.1.0"
edition = "2021"
publish = false

[dependencies]
rust_decimal = "1"
serde = { version = "1", features = ["derive"] }
serde_json = "1"
anyhow = "1"
async-trait = "*"
bytes = "1"
micromap = "*"
tokio = { version = "1", features = ["sync", "macros", "rt"] }
tracing = "*"
sqlx = { version = "*", default-features = false, features = ["derive", "macros"] }
