[package]
name = "jrpc"
version = "0.1.0"
edition = "2021"
publish = false

[dependencies]
serde_json = "*"
serde = { version = "*", features = ["derive"] }
tokio = { version = "*", features = ["sync", "rt", "macros"] }
futures = "*"
reqwest = { version = "*", default-features = false }
reqwest-websocket = "*"
clap = { version = "*", features = ["derive"] }
anyhow = "*"
