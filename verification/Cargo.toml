[package]
name = "please_install"
version = "0.1.0"
edition = "2021"
publish = false

[dependencies]
which = "*"
clap = { version = "*", features = ["derive"] }
eyre = "*"
toml = "*"
