[package]
name = "dyngine"
version = "0.1.0"
edition = "2021"
publish = false

[dependencies]
glam = { version = "=0.20.5", features = ["bytemuck"] }
bytemuck = "=1.25.2"
