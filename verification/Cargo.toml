[package]
name = "tled"
version = "0.1.0"
edition = "2021"
publish = false

[dependencies]
elk-led-controller = "0.1.0"
serde = { version = "1", features = ["derive"] }
tokio = { version = "1", features = ["sync"] }
