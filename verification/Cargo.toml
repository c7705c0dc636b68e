[package]
name = "krabby_do"
version = "0.1.0"
edition = "2021"
publish = false

[dependencies]
bson = "2"
chrono = { version = "0.4", features = ["serde"] }
mongodb = "2.5"
tokio = { version = "1", features = ["rt", "rt-multi-thread"] }
tokio-stream = "0.1"
serde = { version = "1", features = ["derive"] }
serde_json = "1"
eframe = { version = "0.22", default-features = false, features = ["glow", "default_fonts", "persistence"] }
egui = "0.22"
egui_extras = { version = "0.22", features = ["datepicker"] }
