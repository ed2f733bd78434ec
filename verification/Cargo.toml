[package]
name = "black_hole"
version = "0.1.0"
edition = "2021"
publish = false

[dependencies]
chrono = "0.4"
gl = "0.14"
glfw = "*"
image = { version = "0.25", default-features = false, features = ["png"] }
nalgebra-glm = "*"
