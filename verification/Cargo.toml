[package]
name = "bion"
version = "0.1.0"
edition = "2021"
publish = false

[dependencies]
argmin = "*"
argmin-math = "*"
csv = "*"
serde = { version = "*", features = ["derive"] }
serde_json = "*"
