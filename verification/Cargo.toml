[package]
name = "paged_fetch"
version = "0.1.0"
edition = "2021"
publish = false

[dependencies]
reqwest = { version = "0.12", default-features = false }
serde_json = "1"
datafusion = { version = "50", default-features = false }
tracing = "0.1"
