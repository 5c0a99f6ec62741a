[package]
name = "camera_components"
version = "0.1.0"
edition = "2021"
publish = false

[dependencies]
mat32 = "=0.2.1"
mat4 = "=0.2.1"
