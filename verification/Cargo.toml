[package]
name = "slint_3ds"
version = "0.1.0"
edition = "2021"
publish = false

[dependencies]
slint = { version = "=1.6.0", default-features = false, features = ["compat-1-2", "std", "renderer-software"] }
i-slint-core = { version = "=1.6.0", default-features = false, features = ["software-renderer-rotation"] }
