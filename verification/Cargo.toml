[package]
name = "randslug"
version = "0.1.0"
edition = "2021"
publish = false

[dependencies]
rand = "0.8"
slug = "0.1"
clap = { version = "4", features = ["derive"] }
