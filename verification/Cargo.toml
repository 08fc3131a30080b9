[package]
name = "hyperdrive_math"
version = "0.1.0"
edition = "2021"
publish = false

[dependencies]
ethnum = "=1.5.3"
rust_decimal = { version = "=1.43.0", features = ["maths"] }
