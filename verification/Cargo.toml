[package]
name = "dns_fallback"
version = "0.1.0"
edition = "2021"
publish = false

[dependencies]
hickory-resolver = { version = "0.25", features = ["tokio", "system-config", "tls-ring", "webpki-roots"] }
once_cell = "1"
reqwest = { version = "0.12", default-features = false }
serde = { version = "1", features = ["derive"] }
toml = "0.8"
url = { version = "2", features = ["serde"] }
humantime-serde = "1"

[dev-dependencies]
tokio = { version = "1", features = ["rt", "time"] }
