[package]
name = "png_sequence_export"
version = "0.1.0"
edition = "2021"
publish = false

[dependencies]
image = { version = "0.25", default-features = false, features = ["png"] }
once_cell = "1"
glam = "0.29"
itertools = "0.13"
bytemuck = "1"
