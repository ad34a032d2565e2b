[package]
name = "stream_consumer"
version = "0.1.0"
edition = "2021"
publish = false

[dependencies]
redis = { version = "*", features = ["tokio-comp"] }
thiserror = "*"
futures = "*"
async-stream = "*"
tokio = { version = "*", features = ["macros", "rt-multi-thread"] }
