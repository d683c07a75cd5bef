[package]
name = "egui_paint_core"
version = "0.1.0"
edition = "2021"
publish = false

[dependencies]
egui = { version = "*", features = ["bytemuck"] }
wgpu = "*"
bytemuck = "*"
