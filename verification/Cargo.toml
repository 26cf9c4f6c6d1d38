[package]
name = "onnx_ml_nodes"
version = "0.1.0"
edition = "2021"
publish = false

[dependencies]
burn = { version = "=0.22.1", default-features = false }
log = "=0.4.35"
proc-macro2 = "=1.0.107"
