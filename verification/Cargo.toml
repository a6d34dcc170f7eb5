[package]
name = "abbyterm"
version = "0.1.0"
edition = "2021"
publish = false

[dependencies]
anyhow = "1"
libc = "0.2"
portable-pty = "0.9"
ratel-rust = "0.1"
serde = { version = "1", features = ["derive"] }
serde_json = "1"
tokio = { version = "1", features = ["sync", "rt", "process", "time"] }
uuid = { version = "1", features = ["v4"] }
