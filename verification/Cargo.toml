[package]
name = "owrust"
version = "0.1.0"
edition = "2021"
publish = false

[dependencies]
anyhow = "1"
bytemuck = "1"
md-5 = "0.10"
pico-args = "0.5"
rand = "0.8"
