[package]
name = "test_app"
version = "0.1.0"
edition = "2021"
publish = false

[dependencies]
chrono = "0.4"
eframe = { version = "0.18", features = ["persistence"] }
egui = "0.18"
serde = { version = "1", features = ["derive"] }
