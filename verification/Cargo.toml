[package]
name = "image_processors"
version = "0.1.0"
edition = "2021"
publish = false

[dependencies]
half = "2"
image = { version = "0.25", default-features = false, features = ["png"] }
serde = { version = "1", features = ["derive"] }
serde_json = "1"
thiserror = "2"
