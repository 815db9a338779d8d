[package]
name = "egui_multiwin"
version = "0.1.0"
edition = "2021"
publish = false

[dependencies]
egui = "0.25"
egui_glow = { version = "0.25", features = ["winit"] }
glow = "0.13"
glutin = { version = "0.31", default-features = false, features = ["egl", "glx", "x11"] }
winit = { version = "0.29", default-features = false, features = ["rwh_05", "x11"] }
raw-window-handle = "0.5"
arboard = { version = "3", default-features = false }
thiserror = "1"
