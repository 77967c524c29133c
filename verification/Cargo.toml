[package]
name = "now_playing"
version = "0.1.0"
edition = "2021"
publish = false

[dependencies]
mpris = "2"
reqwest = "0.12"
tokio = { version = "1", features = ["rt", "fs"] }
