[package]
name = "raytracer"
version = "0.1.0"
edition = "2021"
publish = false

[dependencies]
cgmath = "*"
rand = "*"
serde = { version = "*", features = ["derive"] }
serde_json = "*"
tobj = "*"
