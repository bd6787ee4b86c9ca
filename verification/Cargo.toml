[package]
name = "screen-ocr"
version = "0.1.0"
edition = "2021"
publish = false

[dependencies]
anyhow = "1"
axum = "*"
clap = { version = "4", features = ["derive"] }
figment = { version = "*", features = ["toml"] }
hex = "0.4"
reqwest = { version = "*", default-features = false, features = ["json"] }
serde = { version = "1", features = ["derive"] }
serde_json = "1"
sha2 = "*"
tokio = { version = "1", features = ["full"] }
tracing = "*"
tracing-subscriber = { version = "*", features = ["env-filter"] }
uuid = { version = "1", features = ["v4", "serde"] }
