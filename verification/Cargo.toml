[package]
name = "texture_share_vk"
version = "0.1.0"
edition = "2021"
publish = false

[dependencies]
ash = "0.37"
interprocess = "1"
libc = "0.2"
