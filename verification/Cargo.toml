[package]
name = "pyrv8"
version = "0.1.0"
edition = "2021"
publish = false

[dependencies]
serde_json = { version = "*", features = ["preserve_order"] }
pyo3 = "*"
serde-pyobject = "*"
rustyscript = "*"
