[package]
name = "tiny_computer_graphics"
version = "0.1.0"
edition = "2021"
publish = false

[dependencies]
anyhow = "=1.0.104"
image = { version = "=0.25.10", default-features = false, features = ["png", "rayon", "tga"] }
indicatif = { version = "=0.17.11", features = ["rayon"] }
nalgebra = "=0.33.3"
rand = "=0.9.5"
rayon = "=1.12.0"
