[package]
name = "wsredis"
version = "0.1.0"
edition = "2021"
publish = false

[dependencies]
rust-argon2 = "2"
uuid = { version = "1", features = ["v4"] }
chrono = "0.4"
redis = { version = "0.23", features = ["tokio-comp", "aio"] }
tokio = { version = "1", features = ["full"] }
warp = "0.3"
futures = "0.3"
tokio-stream = "0.1"
serde = { version = "1", features = ["derive"] }
once_cell = "1"
tokio-tungstenite = "0.21"
