[package]
name = "rust_belt"
version = "0.1.0"
edition = "2021"
publish = false

[dependencies]
rand = "0.8"
piston_window = "*"
piston2d-opengl_graphics = "*"
piston-music = "*"
piston2d-sprite = "*"
piston-ai_behavior = "*"
