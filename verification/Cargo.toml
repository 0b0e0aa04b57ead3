[package]
name = "lunatic"
version = "0.1.0"
edition = "2021"
publish = false

[dependencies]
anyhow = "=1.0.104"
dashmap = "=6.2.1"
tokio = { version = "=1.53.2", features = ["full"] }
wasmtime = { version = "=47.0.4", features = ["async"] }
