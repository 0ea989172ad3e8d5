[package]
name = "headlines"
version = "0.1.0"
edition = "2021"
publish = false

[dependencies]
confy = "0.4"
eframe = { version = "0.20", default-features = false, features = ["glow"] }
serde = { version = "1", features = ["derive"] }
tracing = "0.1"
tracing-subscriber = "0.3"
