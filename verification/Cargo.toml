[package]
name = "tdisp"
version = "0.1.0"
edition = "2021"
publish = false

[dependencies]
anyhow = "1"
parking_lot = "0.12"
thiserror = "2"
tracing = "0.1"
zerocopy = { version = "0.8", features = ["derive"] }
