[package]
name = "singularity_toolkit"
version = "0.1.0"
edition = "2021"
publish = false

[dependencies]
ropey = "*"
serde = { version = "1", features = ["derive"] }
serde_json = "1"
arboard = "*"
