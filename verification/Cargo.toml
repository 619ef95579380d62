[package]
name = "egui_charts"
version = "0.1.0"
edition = "2021"
publish = false

[dependencies]
egui = { version = "0.31", default-features = false }
chrono = { version = "0.4", default-features = false, features = ["std", "serde"] }
serde = { version = "1", features = ["derive"] }
log = "0.4"
