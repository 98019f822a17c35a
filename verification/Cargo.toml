[package]
name = "midi"
version = "0.1.0"
edition = "2021"
publish = false

[dependencies]
hex = "*"
log = "*"
serde = { version = "*", features = ["derive"] }
serde_json = "*"
