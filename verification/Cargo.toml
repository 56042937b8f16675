[package]
name = "content_filter"
version = "0.1.0"
edition = "2021"
publish = false

[dependencies]
anyhow = "1"
regex = "1"
serenity = { version = "0.12", default-features = false, features = ["client", "gateway", "model", "rustls_backend"] }
shuttle-runtime = "*"
shuttle-serenity = "*"
tokio = "1"
tracing = "0.1"
unicode-normalization = "0.1"
