[package]
name = "feathered"
version = "0.1.0"
edition = "2021"
publish = false

[dependencies]
bytemuck = "*"
glam = { version = "*", features = ["bytemuck"] }
log = "*"
ordered-float = "*"
shipyard = "*"
