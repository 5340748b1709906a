[package]
name = "favkit"
version = "0.1.0"
edition = "2021"
publish = false

[dependencies]
core-foundation = "*"
core-services = "*"
dirs = "*"
thiserror = "*"
