[package]
name = "raymarch_core"
version = "0.1.0"
edition = "2021"
publish = false

[dependencies]
bytemuck = "1"
glm = "0.2"
minifb = "0.25"
vulkano = "0.32"
