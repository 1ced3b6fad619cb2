[package]
name = "rustymode"
version = "0.1.0"
edition = "2021"
publish = false

[dependencies]
chrono = "=0.4.45"
signal-hook = "=0.3.18"
slack-hook = { version = "=0.9.1", features = ["blocking"] }
opencv = "=0.101.0"
reqwest = { version = "=0.12.28", features = ["blocking"] }
