[package]
name = "handheld"
version = "0.1.0"
edition = "2021"
publish = false

[dependencies]
chrono = "=0.4.45"
fastrand = "=2.5.0"
totp-rs = "*"
