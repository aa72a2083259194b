[package]
name = "fractals"
version = "0.1.0"
edition = "2021"
publish = false

[dependencies]
colorgrad = "0.6"
num = "0.4"
rayon = "1"
