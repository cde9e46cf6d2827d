[package]
name = "agrg_shd"
version = "0.1.0"
edition = "2021"
publish = false

[dependencies]
hex = "0.4"
chrono = "0.4"
serialport = { version = "4", default-features = false }
