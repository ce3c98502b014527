[package]
name = "lorentz_vector"
version = "0.1.0"
edition = "2021"
publish = false

[dependencies]
num = "*"
serde = "1"
dual_num = "*"
pyo3 = "*"
cpython = "*"
