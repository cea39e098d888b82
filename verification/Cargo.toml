[package]
name = "ak09940a"
version = "0.1.0"
edition = "2021"
publish = false

[dependencies]
embedded-hal = "1"
embedded-hal-async = "1"
duplicate = "*"
maybe-async = "*"

[dev-dependencies]
arbitrary-int = "*"
bitbybit = "*"
arrayref = "*"
