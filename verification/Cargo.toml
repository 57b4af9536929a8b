[package]
name = "esplora_auth_proxy"
version = "0.1.0"
edition = "2021"
publish = false

[dependencies]
hex = "0.4"
axum = "0.7"
bytes = "1"
dotenvy = "0.15"
http-body-util = "0.1"
reqwest = { version = "0.12", default-features = false, features = ["json", "gzip", "brotli", "deflate", "rustls-tls"] }
serde = { version = "1", features = ["derive"] }
tokio = { version = "1", features = ["full"] }
tracing = "0.1"
tracing-subscriber = { version = "0.3", features = ["env-filter"] }
