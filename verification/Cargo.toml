[package]
name = "pathtracer"
version = "0.1.0"
edition = "2021"
publish = false

[dependencies]
const_soft_float = "*"
rustc_apfloat = "=0.2.3"
rand = "=0.7.3"
minifb = "=0.29.0"
