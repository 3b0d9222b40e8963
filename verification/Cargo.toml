[package]
name = "pytrace"
version = "0.1.0"
edition = "2021"
publish = false

[dependencies]
serde_json = { version = "1", features = ["preserve_order"] }
pyo3 = { version = "*", features = ["extension-module"] }
slog = "2"
sloggers = "*"
lazy_static = "1"
