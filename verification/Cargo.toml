[package]
name = "bleep"
version = "0.1.0"
edition = "2021"
publish = false

[dependencies]
btleplug = "0.11"
log = "0.4"
pyo3 = { version = "0.20", features = ["extension-module"] }
pyo3-asyncio = { version = "0.20", features = ["tokio-runtime"] }
pyo3-log = "0.9"
tokio = { version = "1", features = ["rt-multi-thread"] }
tokio-stream = "0.1"
uuid = "1"
