[package]
name = "wonnx"
version = "0.1.0"
edition = "2021"
publish = false

[dependencies]
tera = { version = "1", default-features = false }
wgpu = "0.12"
bytemuck = "1"
log = "0.4"
thiserror = "1"
