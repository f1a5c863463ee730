[package]
name = "mfc_reader_sim"
version = "0.1.0"
edition = "2021"
publish = false

[dependencies]
nfc1 = "*"
pollster = "*"
pyo3 = "*"
watch = "*"
wgpu = "*"
winit = "*"
