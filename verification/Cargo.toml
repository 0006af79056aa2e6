[package]
name = "package_manager"
version = "0.1.0"
edition = "2021"
publish = false

[dependencies]
async-process = "*"
strum = { version = "*", features = ["derive"] }
