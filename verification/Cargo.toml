[package]
name = "render_core"
version = "0.1.0"
edition = "2021"
publish = false

[dependencies]
bytemuck = "1"
glow = "0.13"
glutin = "0.29"
log = "0.4"
nalgebra-glm = "*"
semver = "1"
simple-error = "*"
simplelog = "0.12"
