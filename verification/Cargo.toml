[package]
name = "sx1509"
version = "0.1.0"
edition = "2021"
publish = false

[dependencies]
embedded-hal = "1.0"
spin = "0.9"
