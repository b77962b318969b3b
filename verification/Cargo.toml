[package]
name = "keyboard"
version = "0.1.0"
edition = "2021"
publish = false

[dependencies]
crossterm = "0.20"
serde = { version = "1", features = ["derive"] }
