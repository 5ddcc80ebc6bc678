[package]
name = "recad_python"
version = "0.1.0"
edition = "2021"
publish = false

[dependencies]
pyo3 = "0.25"
spdlog-rs = { version = "0.4", features = ["log"] }
log = "0.4"
winit = "0.30"
