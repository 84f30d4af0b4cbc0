[package]
name = "defer_drop"
version = "0.1.0"
edition = "2021"
publish = false

[dependencies]
crossbeam-channel = "*"
once_cell = "*"
serde = "*"

[dev-dependencies]
crossbeam-utils = "*"
