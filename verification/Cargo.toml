[package]
name = "tng_tunnel"
version = "0.1.0"
edition = "2021"
publish = false

[dependencies]
anyhow = "1"
axum = "*"
http = "1"
hyper = { version = "1", features = ["client", "http1", "http2"] }
hyper-util = { version = "0.1", features = ["client-legacy", "http2", "tokio"] }
rustls = "0.23"
tokio = { version = "1", features = ["rt-multi-thread", "sync", "macros", "net", "io-util"] }
tracing = "0.1"
