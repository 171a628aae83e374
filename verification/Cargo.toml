[package]
name = "file_futures"
version = "0.1.0"
edition = "2021"
publish = false

[dependencies]
futures = "=0.1.31"
tokio-fs = "=0.1.7"

[dev-dependencies]
tokio = "0.1"
