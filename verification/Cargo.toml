[package]
name = "n_top"
version = "0.1.0"
edition = "2021"
publish = false

[dependencies]
chrono = "0.4"
core-graphics = "0.25"
serde = { version = "1", features = ["derive"] }
serde_json = "1"
