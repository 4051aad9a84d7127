[package]
name = "autodoc_core"
version = "0.1.0"
edition = "2021"
publish = false

[dependencies]
anyhow = "1"
pyo3 = "0.22"
regex = "1"
rustpython-parser = "0.4"
serde = { version = "1", features = ["derive"] }
