[package]
name = "papers"
version = "0.1.0"
edition = "2021"
publish = false

[dependencies]
gif = "0.12"
tempfile = "3"
wayland-client = "0.31"
wayland-protocols = { version = "0.31", features = ["client"] }
