[package]
name = "openvino"
version = "0.1.0"
edition = "2021"
publish = false

[dependencies]
openvino-sys = { version = "=0.11.0", features = ["runtime-linking"] }
