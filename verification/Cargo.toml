[package]
name = "bafomet"
version = "0.1.0"
edition = "2021"
publish = false

[dependencies]
ring = "=0.17.14"
async-std = "1"
async-tls = "=0.13.0"
futures = "0.3"
futures-timer = "3"
parking_lot = "0.12"
rustls = "=0.21.12"
serde = { version = "1", features = ["derive"] }
bincode = "1"
smallvec = "1"
tokio = { version = "1", features = ["rt-multi-thread"] }
