[package]
name = "rusty_yunet"
version = "0.1.0"
edition = "2021"
publish = false

[dependencies]
cxx = "1.0"
glam = { version = "*", features = ["serde"] }
serde = { version = "1", features = ["derive"] }
thiserror = "1"
