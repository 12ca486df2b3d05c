[package]
name = "diegos"
version = "0.1.0"
edition = "2021"
publish = false

[dependencies]
x86 = "0.52"
pc-keyboard = "0.5"
spin = "0.9"
lazy_static = "1.4"
