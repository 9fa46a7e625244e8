[package]
name = "rune"
version = "0.12.0"
edition = "2021"
publish = false

[dependencies]
tokio = { version = "1", features = ["fs"] }
