[package]
name = "sp_estimate"
version = "0.1.0"
edition = "2021"
publish = false

[dependencies]
nalgebra = "*"
