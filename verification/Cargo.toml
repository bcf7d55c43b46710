[package]
name = "cyrusc_internal"
version = "0.1.0"
edition = "2021"
publish = false

[dependencies]
once_cell = "*"
fx-hash = "*"
inkwell = "*"
