[package]
name = "feedback_shell"
version = "0.1.0"
edition = "2021"
publish = false

[dependencies]
url = "=2.5.8"
env_logger = "=0.11.11"
pyo3 = "=0.29.3"
