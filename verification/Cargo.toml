[package]
name = "memory_monitor"
version = "0.1.0"
edition = "2021"
publish = false

[dependencies]
rand = "=0.8.8"
sysinfo = { version = "=0.29.11", default-features = false }
eframe = { version = "0.24", default-features = false, features = ["default_fonts", "glow"] }
egui_plot = "0.24"
