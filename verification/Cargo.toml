[package]
name = "egui_citro3d"
version = "0.1.0"
edition = "2021"
publish = false

[dependencies]
bytemuck = "1"
egui = "0.29"
