[package]
name = "hartex"
version = "0.1.0"
edition = "2021"
publish = false

[dependencies]
futures-channel = "0.3"
serde = { version = "1", features = ["derive"] }
