[package]
name = "egui_d3d11"
version = "0.1.0"
edition = "2021"
publish = false

[dependencies]
egui = "*"
parking_lot = "*"
