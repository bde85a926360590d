[package]
name = "kajiya_kay_demo"
version = "0.1.0"
edition = "2021"
publish = false

[dependencies]
glium = "0.32"
glm = "0.2.3"
image = { version = "0.24", default-features = false, features = ["png"] }
num-traits = "0.2"
