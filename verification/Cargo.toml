[package]
name = "native_surface"
version = "0.1.0"
edition = "2021"
publish = false

[dependencies]
egl = "*"
geom = "*"
opengles = "*"
