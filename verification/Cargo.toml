[package]
name = "backend"
version = "0.1.0"
edition = "2021"
publish = false

[dependencies]
paradex = "*"
tokio = { version = "1", features = ["full"] }
rust_decimal = "1"
log = "0.4"
simple_logger = "*"
