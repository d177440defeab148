[package]
name = "pipe_relay"
version = "0.1.0"
edition = "2021"
publish = false

[dependencies]
byteorder = "1"
serde = { version = "1", features = ["derive"] }
tokio = { version = "1", features = ["io-util", "net", "rt-multi-thread", "sync", "time"] }
