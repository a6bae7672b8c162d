[package]
name = "game"
version = "0.1.0"
edition = "2021"
publish = false

[dependencies]
risc0-zkvm = { version = "=0.15.3", default-features = false, features = ["prove"] }
serde = { version = "=1.0.229", features = ["derive"] }
