[package]
name = "risk"
version = "0.1.0"
edition = "2021"
publish = false

[dependencies]
nalgebra = "0.33"
of_core = "*"
pyo3 = "0.22"
