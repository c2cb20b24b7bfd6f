[package]
name = "egui_dropdown"
version = "0.1.0"
edition = "2021"
publish = false

[dependencies]
egui = "=0.33.3"
egui_chip = "=0.3.1"
