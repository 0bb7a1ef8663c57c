[package]
name = "pyaccengineer_installer"
version = "0.1.0"
edition = "2021"
publish = false

[dependencies]
semver = "1"
