[package]
name = "guest_bridge"
version = "0.1.0"
edition = "2021"
publish = false

[dependencies]
wasmtime = "=48.0.5"
bincode = "1"
serde = { version = "1", features = ["derive"] }
