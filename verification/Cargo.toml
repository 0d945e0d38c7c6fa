[package]
name = "bevy_meshopt"
version = "0.1.0"
edition = "2021"
publish = false

[dependencies]
meshopt = "*"
bytemuck = "*"
bevy_mesh = "*"
