[package]
name = "soundboard"
version = "0.1.0"
edition = "2021"
publish = false

[dependencies]
rodio = "0.21"
serde = { version = "1", features = ["derive"] }
tokio = { version = "1", features = ["rt"] }
