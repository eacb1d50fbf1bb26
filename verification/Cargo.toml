[package]
name = "coonboot"
version = "0.1.0"
edition = "2021"
publish = false

[dependencies]
log = "=0.4.34"
uefi = "=0.20.0"
uefi-services = { version = "=0.17.0", default-features = false, features = ["logger"] }

[dev-dependencies]
xmas-elf = "=0.10.0"
