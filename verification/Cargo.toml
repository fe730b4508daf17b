[package]
name = "incorrect_roact_usage"
version = "0.1.0"
edition = "2021"
publish = false

[dependencies]
full_moon = "0.18"
