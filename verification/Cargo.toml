[package]
name = "xross_guitar_amp"
version = "0.1.0"
edition = "2021"
publish = false

[dependencies]
egui = "=0.34.3"
egui_extras = { version = "=0.34.3", features = ["svg"] }
truce = "=6.3.0"
truce-egui = "=6.3.0"
