[package]
name = "fast_qr_py"
version = "0.1.0"
edition = "2021"
publish = false

[dependencies]
fast_qr = { version = "*", features = ["svg", "image"] }
pyo3 = { version = "*", features = ["extension-module"] }
