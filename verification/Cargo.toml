[package]
name = "calorimetre"
version = "0.1.0"
edition = "2021"
publish = false

[dependencies]
egui = { version = "0.27", default-features = false, features = ["default_fonts"] }
egui_plot = { version = "0.27", default-features = false }
serialport = { version = "4", default-features = false }
