[package]
name = "vpnctl_admin"
version = "0.1.0"
edition = "2021"
publish = false

[dependencies]
anyhow = "1"
axum = { version = "0.8", default-features = false, features = ["query", "tokio", "json"] }
chrono = { version = "0.4", default-features = false, features = ["clock", "std"] }
futures-core = "0.3"
maud = { version = "*", features = ["axum"] }
qrcode = { version = "0.14", default-features = false, features = ["svg"] }
serde = { version = "1", features = ["derive"] }
serde_json = "1"
tokio = { version = "1", features = ["rt", "time"] }
tokio-stream = "0.1"
tracing = "0.1"
