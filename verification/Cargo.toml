[package]
name = "font_outlines"
version = "0.1.0"
edition = "2021"
publish = false

[dependencies]
skrifa = "*"
pyo3 = "*"
numpy = "*"
