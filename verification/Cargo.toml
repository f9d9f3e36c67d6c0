[package]
name = "mesh_batch"
version = "0.1.0"
edition = "2021"
publish = false

[dependencies]
glam = "*"
bytemuck = "*"
iced_native = "*"
