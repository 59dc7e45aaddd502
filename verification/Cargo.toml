[package]
name = "scriptty"
version = "0.1.0"
edition = "2021"
publish = false

[dependencies]
anyhow = "1"
clap = { version = "4", features = ["derive"] }
portable-pty = "*"
rand = "0.8"
tokio = { version = "1", features = ["macros", "rt-multi-thread", "sync", "time"] }
