[package]
name = "mic_bridge"
version = "0.1.0"
edition = "2021"
publish = false

[dependencies]
clap = { version = "*", features = ["derive"] }
rodio = "*"
tracing-subscriber = "*"
