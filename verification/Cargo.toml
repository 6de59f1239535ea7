[package]
name = "clockutils"
version = "0.1.0"
edition = "2021"
publish = false

[dependencies]
chrono = "0.4"
glam = "*"
image = { version = "0.24", default-features = false, features = ["png"] }
ply-rs = "*"
pollster = "0.3"
