[package]
name = "capture_agent"
version = "0.1.0"
edition = "2021"
publish = false

[dependencies]
num_cpus = "*"
tokio = { version = "*", features = ["rt-multi-thread", "macros", "net", "time", "sync", "io-util"] }
tokio-tungstenite = "*"
futures-util = "*"
url = "*"
