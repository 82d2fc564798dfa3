[package]
name = "smtp_test"
version = "0.1.0"
edition = "2021"
publish = false

[dependencies]
lettre = "0.10"
validator = "0.16"

[dev-dependencies]
fake = "2"
rand = "0.8"
