[package]
name = "texture_converter"
version = "0.1.0"
edition = "2021"
publish = false

[dependencies]
anyhow = "1"
image = "0.24"
memmap2 = "0.9"
