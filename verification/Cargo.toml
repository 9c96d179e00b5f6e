[package]
name = "workstation_app"
version = "0.1.0"
edition = "2021"
publish = false

[dependencies]
chrono = { version = "0.4", default-features = false, features = ["std", "clock"] }
eframe = { version = "0.34", default-features = false, features = ["default_fonts", "glow", "x11"] }
