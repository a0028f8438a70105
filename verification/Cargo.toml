[package]
name = "compute_shader"
version = "0.1.0"
edition = "2021"
publish = false

[dependencies]
byteorder = "=1.5.0"
euclid = "=0.22.14"
objc = "=0.2.7"
