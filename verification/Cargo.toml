[package]
name = "server_scaffold"
version = "0.1.0"
edition = "2021"
publish = false

[dependencies]
serde_json = "*"
axum = "*"
tokio = { version = "*", features = ["rt", "net"] }
tower-http = { version = "*", features = ["cors"] }
dotenvy = "*"
