[package]
name = "circle_pad"
version = "0.1.0"
edition = "2021"
publish = false

[dependencies]
notan = { version = "*", features = ["draw", "egui"] }
