[package]
name = "turbochat"
version = "0.1.0"
edition = "2021"
publish = false

[dependencies]
crc32c = "0.6"
prost = "*"
bytes = "1"
thiserror = "*"
axum = { version = "0.8", features = ["ws"] }
tokio = { version = "1", features = ["full"] }
futures = "0.3"
redis = { version = "*", features = ["tokio-comp"] }
reqwest = { version = "0.12", default-features = false, features = ["json", "rustls-tls"] }
serde = { version = "1", features = ["derive"] }
serde_json = "1"
base64 = "0.22"
tower-http = { version = "*", features = ["cors"] }
dotenvy = "0.15"
