[package]
name = "opal"
version = "0.1.0"
edition = "2021"
publish = false

[dependencies]
egui = "0.16"
egui_winit_platform = "0.13"
glam = "0.20"
histogram = "0.6"
rend3 = "0.3"
rend3-egui = "0.3"
rend3-framework = "0.3"
rend3-routine = "0.3"
winit = "0.26"
