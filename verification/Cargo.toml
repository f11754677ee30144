[package]
name = "sketchbook"
version = "0.1.0"
edition = "2021"
publish = false

[dependencies]
chrono = "0.4"
itertools = "0.10"
names = { version = "0.14", default-features = false }
nannou = "0.18"
nannou_egui = "0.5"
rand = "0.8"
