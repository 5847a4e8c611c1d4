[package]
name = "manim_studio"
version = "0.1.0"
edition = "2021"
publish = false

[dependencies]
egui = { version = "0.27", default-features = false, features = ["default_fonts"] }
