[package]
name = "path_tracer"
version = "0.1.0"
edition = "2021"
publish = false

[dependencies]
glam = { version = "=0.34.1", features = ["bytemuck"] }
bytemuck = "=1.25.2"
rand = "=0.10.3"
image = { version = "=0.25.10", default-features = false, features = ["png"] }
