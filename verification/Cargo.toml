[package]
name = "coffret_device"
version = "0.1.0"
edition = "2021"
publish = false

[dependencies]
serde = { version = "1", features = ["derive"] }
serde_json = "1"
tokio = { version = "1", features = ["sync", "macros", "rt", "rt-multi-thread", "time"] }
rustix = { version = "1", features = ["fs"] }
getrandom = "*"
tracing = "0.1"
zeroize = "1"
