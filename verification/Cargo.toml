[package]
name = "peekos"
version = "0.1.0"
edition = "2021"
publish = false

[dependencies]
spin = "0.9"
bootloader_api = "0.11"
bootloader = "0.11"
wait-timeout = "0.2"
