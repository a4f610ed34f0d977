[package]
name = "cartographer"
version = "0.1.0"
edition = "2021"
publish = false

[dependencies]
ggez = { version = "*", default-features = false }
