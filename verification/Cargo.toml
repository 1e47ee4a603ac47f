[package]
name = "image_exts"
version = "0.1.0"
edition = "2021"
publish = false

[dependencies]
serde = "=1.0.229"
bincode = { version = "=2.0.1", features = ["derive"] }
specta = "=1.0.5"
