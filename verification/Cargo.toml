[package]
name = "bloodray"
version = "0.1.0"
edition = "2021"
publish = false

[dependencies]
rand = "0.8"
lazy_static = "1"
rusttype = "0.9"
image = "0.24"
glow = "0.11"
glutin = "0.28"
