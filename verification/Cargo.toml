[package]
name = "space_tap"
version = "0.1.0"
edition = "2021"
publish = false

[dependencies]
core-foundation = "*"
core-foundation-sys = "*"
core-graphics = "*"
