[package]
name = "glcam"
version = "0.1.0"
edition = "2021"
publish = false

[dependencies]
anyhow = "*"
glfw = "*"
image = "*"

[dev-dependencies]
cgmath = "*"
