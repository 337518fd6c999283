[package]
name = "hfendpoints_openai"
version = "0.1.0"
edition = "2021"
publish = false

[dependencies]
tokio = { version = "*", features = ["sync", "rt-multi-thread", "net"] }
serde = { version = "*", features = ["derive"] }
serde_json = "*"
axum = { version = "*", features = ["multipart"] }
