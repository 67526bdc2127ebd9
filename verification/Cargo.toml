[package]
name = "emel_model"
version = "0.1.0"
edition = "2021"
publish = false

[dev-dependencies]
allocation-counter = "*"
