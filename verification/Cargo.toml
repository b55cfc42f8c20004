[package]
name = "egui_ui"
version = "0.1.0"
edition = "2021"
publish = false

[dependencies]
ahash = { version = "0.8.11", default-features = false, features = ["no-rng", "std"] }
