[package]
name = "urm37"
version = "0.1.0"
edition = "2021"
publish = false

[dependencies]
embedded-io = "0.6"
embedded-io-async = "0.6"
embedded-hal = "1.0"
embedded-hal-async = "1.0"
