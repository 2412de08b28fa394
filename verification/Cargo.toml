[package]
name = "shellcommand"
version = "0.1.0"
edition = "2021"

[dependencies]
duct = "=1.1.2"
