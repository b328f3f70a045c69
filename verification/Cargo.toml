[package]
name = "mixlab"
version = "0.1.0"
edition = "2021"
publish = false

[dependencies]
bytes = "=1.12.1"
serde = { version = "=1.0.229", features = ["derive"] }
bincode = "=1.3.3"
uuid = { version = "0.8", features = ["serde", "v4"] }
