[package]
name = "vmthook"
version = "0.1.0"
edition = "2021"
publish = false

[dependencies]
anyhow = "=1.0.104"
cranelift = "=0.135.5"
cranelift-jit = "=0.135.5"
cranelift-module = "=0.135.5"
disarm64 = "=0.2.0"
parking_lot = "=0.12.5"
patternscan = "=1.2.0"
serde = { version = "=1.0.229", features = ["derive"] }
