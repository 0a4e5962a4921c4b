[package]
name = "gpui_web"
version = "0.1.0"
edition = "2021"
publish = false

[dependencies]
etagere = "*"
wgpu = { version = "*", default-features = false, features = ["wgsl"] }
