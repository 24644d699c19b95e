[package]
name = "wsmux"
version = "0.1.0"
edition = "2021"
publish = false

[dependencies]
tokio = { version = "1", features = ["rt-multi-thread", "net", "io-util", "sync", "time", "macros"] }
tokio-tungstenite = "*"
futures-util = "0.3"

[dev-dependencies]
prost = "*"
