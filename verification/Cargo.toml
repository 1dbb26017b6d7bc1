[package]
name = "rustchip"
version = "0.1.0"
edition = "2021"
publish = false

[dependencies]
rand = "0.9"
rodio = { version = "0.21", default-features = false, features = ["playback"] }
winit = "0.30"
