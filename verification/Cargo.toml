[package]
name = "volkanic_console"
version = "0.1.0"
edition = "2021"
publish = false

[dependencies]
serde_json = "=1.0.151"
url = "=2.5.8"
serde = { version = "=1.0.229", features = ["derive"] }
tokio = { version = "=1.53.2", features = ["rt-multi-thread", "macros", "sync", "time", "fs", "io-util"] }
reqwest = { version = "=0.13.5", default-features = false, features = ["stream"] }
futures-util = "=0.3.34"
dirs = "=7.0.0"
uuid = { version = "=1.27.0", features = ["v4"] }
serde_jsonc = "=1.0.108"
