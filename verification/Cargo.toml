[package]
name = "solar_nav"
version = "0.1.0"
edition = "2021"
publish = false

[dependencies]
kiss3d = "=0.33.0"
rand = "=0.8.8"
