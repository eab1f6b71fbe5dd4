[package]
name = "py_tokenizer"
version = "0.1.0"
edition = "2021"
publish = false

[dependencies]
pyo3 = { version = "0.20", features = ["auto-initialize"] }
