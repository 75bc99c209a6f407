[package]
name = "same_code_different_performance"
version = "0.1.0"
edition = "2021"
publish = false

[dependencies]
rand = "0.8"
criterion = { version = "0.5", default-features = false }
