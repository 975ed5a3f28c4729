[package]
name = "jason"
version = "0.1.0"
edition = "2021"
publish = false

[dependencies]
serde_json = { version = "=1.0.154", features = ["preserve_order"] }
serde = { version = "=1.0.229", features = ["derive"] }
hyper = { version = "=0.14.32", features = ["client", "http1", "tcp"] }
futures = "=0.3.34"
anyhow = "=1.0.104"
