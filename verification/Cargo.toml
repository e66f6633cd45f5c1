[package]
name = "shaderpg"
version = "0.1.0"
edition = "2021"
publish = false

[dependencies]
async-channel = "*"
naga = { version = "*", features = ["wgsl-in"] }
image = "*"
