[package]
name = "glframe"
version = "0.1.0"
edition = "2021"
publish = false

[dependencies]
cgmath = "0.18"
gl = "0.14"
glfw = { version = "0.51", default-features = false }
image = { version = "0.24", default-features = false, features = ["jpeg", "png"] }
