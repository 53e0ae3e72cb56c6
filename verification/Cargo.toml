[package]
name = "camera_view"
version = "0.1.0"
edition = "2021"
publish = false

[dependencies]
glam = "=0.29.3"
gl = "=0.14.0"
gl-from-raw-window-handle = "=0.1.4"
winit = { version = "=0.30.13", default-features = false, features = ["rwh_06", "x11"] }
