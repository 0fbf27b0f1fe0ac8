[package]
name = "il4il"
version = "0.1.0"
edition = "2021"
publish = false

[dependencies]
rustc-hash = "=1.1.0"
clap = { version = "=3.2.25", features = ["derive"] }
