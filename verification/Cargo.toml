[package]
name = "pytures"
version = "0.1.0"
edition = "2021"
publish = false

[dependencies]
pyo3 = "=0.28.3"
pin-project = "=1.1.13"

[dev-dependencies]
pyo3 = { version = "=0.28.3", features = ["auto-initialize"] }
tokio = { version = "=1.54.1", features = ["rt", "rt-multi-thread", "time"] }
