[package]
name = "pgdog_result_cache"
version = "0.1.0"
edition = "2021"
publish = false

[dependencies]
aes-gcm = "0.10"
md5 = "0.7"
sha2 = "0.10"
regex = "1"
rand = "0.9"
tokio = { version = "1", features = ["sync", "rt", "time", "macros"] }
parking_lot = "0.12"
tracing = "0.1"
serde = { version = "1", features = ["derive"] }
schemars = "*"
redis = { version = "*", features = ["tokio-comp", "connection-manager"] }
