[package]
name = "file_volatile"
version = "0.1.0"
edition = "2021"
publish = false

[dependencies]
vm-memory = "0.10"
tokio-uring = "0.4"
