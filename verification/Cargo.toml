[package]
name = "vpad"
version = "0.1.0"
edition = "2021"
publish = false

[dependencies]
anyhow = "=1.0.104"
uinput = { version = "=0.1.3", default-features = false }
winit = "=0.30.13"
