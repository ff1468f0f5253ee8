[package]
name = "ferritecad_app"
version = "0.1.0"
edition = "2021"
publish = false

[dependencies]
egui = "*"
egui-wgpu = "*"
egui-winit = "*"
wgpu = "*"
winit = "*"
rfd = "*"
