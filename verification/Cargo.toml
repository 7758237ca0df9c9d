[package]
name = "scene_control"
version = "0.1.0"
edition = "2021"
publish = false

[dependencies]
cgmath = "0.18"
image = { version = "0.24", default-features = false, features = ["png"] }
thiserror = "1"
three-d-asset = "*"
