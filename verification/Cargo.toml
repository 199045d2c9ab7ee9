[package]
name = "aisboost"
version = "0.1.0"
edition = "2021"
publish = false

[dependencies]
axum = "*"
chrono = "*"
headers = "*"
http = "*"
libsql = { version = "*", default-features = false, features = ["remote"] }
serde = { version = "*", features = ["derive"] }
tokio = { version = "*", features = ["rt-multi-thread", "net", "macros"] }
