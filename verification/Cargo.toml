[package]
name = "p2ds"
version = "0.1.0"
edition = "2021"
publish = false

[dependencies]
bevy = { version = "0.6", default-features = false, features = ["render", "bevy_winit", "png", "x11"] }
nalgebra = "0.30"
rand = "0.8"
wasm-bindgen = "0.2"
web-sys = { version = "0.3", features = ["Window"] }
