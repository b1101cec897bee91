[package]
name = "pty_channel"
version = "0.1.0"
edition = "2021"
publish = false

[dependencies]
portable-pty = "*"
futures-util = { version = "*", features = ["sink"] }
anyhow = "*"
