[package]
name = "voronoi_noise"
version = "0.1.0"
edition = "2021"
publish = false

[dependencies]
fnv = "1.0"
glam = "*"
eframe = { version = "0.31", default-features = false, features = ["glow", "x11", "default_fonts"] }
egui_extras = { version = "0.31", default-features = false }
