[package]
name = "fp12_mul"
version = "0.1.0"
edition = "2021"
publish = false

[dependencies]
num = "=0.4.3"
generic-array = "=1.1.1"
typenum = "=1.17.0"
serde = { version = "=1.0.229", features = ["derive"] }
p3-field = "=0.1.0"
p3-matrix = "=0.1.0"
