[package]
name = "starlane"
version = "0.1.0"
edition = "2021"
publish = false

[dependencies]
lru = "0.7"
semver = "1"
uuid = { version = "0.8", features = ["v4", "serde"] }
base64 = "0.13"
bincode = "1.3"
serde = { version = "1", features = ["derive"] }
tokio = { version = "1", features = ["rt-multi-thread", "net", "io-util", "sync", "time", "macros"] }
