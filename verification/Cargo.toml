[package]
name = "floresta_ffi"
version = "0.1.0"
edition = "2021"
publish = false

[dependencies]
bitcoin = "0.32"
rustreexo = "*"
floresta-node = "*"
tokio = { version = "1", features = ["rt-multi-thread"] }
tracing = "0.1"
