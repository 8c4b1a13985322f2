[package]
name = "volume_raycaster"
version = "0.1.0"
edition = "2021"
publish = false

[dependencies]
glow = "*"
bytemuck = "*"
nalgebra = "*"
nalgebra-glm = "*"
