[package]
name = "geom2d"
version = "0.1.0"
edition = "2021"
publish = false

[dependencies]
glam = "=0.34.1"
rustc_apfloat = "=0.2.3"

[dev-dependencies]
float-cmp = "=0.10.0"
