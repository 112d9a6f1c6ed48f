[package]
name = "glfw_demo"
version = "0.1.0"
edition = "2021"
publish = false

[dependencies]
anyhow = "=1.0.104"
gl = "=0.14.0"
glfw = { version = "=0.51.0", default-features = false }
