[package]
name = "overlay_engine"
version = "0.1.0"
edition = "2021"
publish = false

[dependencies]
gl = "=0.14.0"
glfw-passthrough = "=0.51.1"
image = { version = "=0.25.10", default-features = false, features = ["png"] }
