[package]
name = "is_thirteen"
version = "0.1.0"
edition = "2021"
publish = false

[dependencies]
fnv = "1.0"
num-traits = "0.2"
once_cell = "1"
