[package]
name = "gl_quad"
version = "0.1.0"
edition = "2021"
publish = false

[dependencies]
gl33 = "0.2"
glutin = "0.29"

[dev-dependencies]
bytemuck = "1"
