[package]
name = "tokio_retry2"
version = "0.1.0"
edition = "2021"
publish = false

[dependencies]
rand = "*"
tokio = { version = "*", default-features = false, features = ["time"] }
