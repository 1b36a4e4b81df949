[package]
name = "rmake"
version = "0.2.4"
edition = "2021"
publish = false

[dependencies]
clap = { version = "*", features = ["derive"] }
colored = "*"
