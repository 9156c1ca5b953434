[package]
name = "crabs"
version = "0.1.0"
edition = "2021"
publish = false

[dependencies]
pixels = "0.11"
rand = "0.8"
winit = "0.27"
