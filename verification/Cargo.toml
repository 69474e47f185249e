[package]
name = "edge_handler"
version = "0.1.0"
edition = "2021"
publish = false

[dependencies]
serde_json = "1"
worker = "*"
console_error_panic_hook = "0.1"
