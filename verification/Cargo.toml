[package]
name = "willowblossom"
version = "0.1.0"
edition = "2021"
publish = false

[dependencies]
crossbeam-channel = "*"
tokio = { version = "*", features = ["sync", "rt-multi-thread", "macros", "time", "net"] }
tokio-tungstenite = "*"
futures-util = "*"
serde = { version = "*", features = ["derive"] }
serde_json = "*"
url = "*"
