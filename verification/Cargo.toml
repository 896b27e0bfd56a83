[package]
name = "vortex_export"
version = "0.1.0"
edition = "2021"
publish = false

[dependencies]
vortex = { version = "=0.58.0", default-features = false }
vortex-error = "=0.58.0"
vortex-layout = "=0.58.0"
vortex-vector = "=0.58.0"
num-traits = "=0.2.19"
cudarc = { version = "=0.18.2", features = ["cuda-12050"] }
