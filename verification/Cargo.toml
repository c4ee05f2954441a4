[package]
name = "mli"
version = "0.1.0"
edition = "2021"
publish = false

[dependencies]
float-ord = "*"
nalgebra = "*"
ndarray = "*"
ordered-float = "*"
rand = "*"
