[package]
name = "action_center"
version = "0.1.0"
edition = "2021"
publish = false

[dependencies]
eframe = { version = "*", default-features = false, features = ["glow", "default_fonts", "x11"] }
egui = "*"
egui-phosphor = "*"
serde = { version = "*", features = ["derive"] }
serde_json = "*"
