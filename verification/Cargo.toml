[package]
name = "cargo_xfmt"
version = "0.1.0"
edition = "2021"
publish = false

[dependencies]
anyhow = "1"
clap = { version = "4", features = ["derive"] }
normalize-path = "*"
parking_lot = "0.12"
toml = { version = "*", features = ["preserve_order"] }
