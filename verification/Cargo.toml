[package]
name = "fon"
version = "0.6.0"
edition = "2021"
publish = false

[dependencies]
libm = "0.2"
