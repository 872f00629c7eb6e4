[package]
name = "protocol_rs"
version = "0.1.0"
edition = "2021"
publish = false

[dependencies]
tokio = { version = "*", features = ["rt-multi-thread", "macros", "sync", "time", "net"] }
axum = { version = "*", features = ["ws"] }
futures = "*"
serde_json = "*"
