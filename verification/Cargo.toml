[package]
name = "pixel_wars"
version = "0.1.0"
edition = "2021"
publish = false
