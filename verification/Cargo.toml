[package]
name = "alphav"
version = "0.1.0"
edition = "2021"
publish = false

[dependencies]
serde = { version = "1", features = ["derive"] }
serde_json = "1"
schemars = "*"
dotenvy = "0.15"
arc-swap = "1"
hyper = "1"
hyper-util = { version = "0.1", features = ["client-legacy", "http1", "tokio"] }
hyper-tls = "0.6"
http-body-util = "0.1"
reqwest = "0.12"
polars-core = "*"
polars-io = { version = "*", features = ["json"] }
decoder = "*"
