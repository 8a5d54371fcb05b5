[package]
name = "pc_simulator"
version = "0.1.0"
edition = "2021"
publish = false

[dependencies]
rand = "*"
rayon = "1"
rgb = "0.8"
serde = { version = "1", features = ["derive"] }
serde_json = "1"
textplots = "0.8"
