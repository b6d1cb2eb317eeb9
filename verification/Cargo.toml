[package]
name = "interop"
version = "0.1.0"
edition = "2021"
publish = false

[dependencies]
cxx = "1"
pyo3 = "*"
pyo3-stub-gen = "*"
