[package]
name = "activation_proxy"
version = "0.1.0"
edition = "2021"
publish = false

[dependencies]
hyper = { version = "0.14", features = ["full"] }
hyper-reverse-proxy = "0.5"
tokio = { version = "1", features = ["full"] }
