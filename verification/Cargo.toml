[package]
name = "subscribe_op"
version = "0.1.0"
edition = "2021"
publish = false

[dependencies]
freenet-stdlib = "0.0.7"
futures = "0.3"
serde = { version = "1", features = ["derive"] }
tracing = "0.1"
