[package]
name = "tunnel_core"
version = "0.1.0"
edition = "2021"
publish = false

[dependencies]
tokio = { version = "*", features = ["sync", "process", "io-util", "time", "rt-multi-thread", "macros"] }
serde = { version = "*", features = ["derive"] }
serde_json = "*"
