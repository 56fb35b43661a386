[package]
name = "turntouch"
version = "0.1.0"
edition = "2021"
publish = false

[dependencies]
btleplug = "0.11"
clap = { version = "4", features = ["derive"] }
dirs = "5"
futures = "0.3"
objc2-core-bluetooth = "0.2"
serde = { version = "1", features = ["derive"] }
tokio = { version = "1", features = ["full"] }
toml = "0.8"
tracing = "0.1"
tracing-subscriber = { version = "0.3", features = ["env-filter"] }
uuid = "1"
