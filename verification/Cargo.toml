[package]
name = "veml6075"
version = "0.2.1"
edition = "2021"
publish = false

[dependencies]
embedded-hal = "0.2"

[dev-dependencies]
embedded-hal-mock = "0.9"
