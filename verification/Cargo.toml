[package]
name = "rust_raytracer"
version = "0.1.0"
edition = "2021"
publish = false

[dependencies]
rayon = "=1.12.0"
winit = { version = "=0.29.15", default-features = false, features = ["rwh_05", "x11"] }
image = { version = "0.25", default-features = false, features = ["png"] }
