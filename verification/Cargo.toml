[package]
name = "fleetr"
version = "0.1.0"
edition = "2021"
publish = false

[dependencies]
toml = { version = "*", features = ["preserve_order"] }
clap = { version = "*", features = ["derive"] }
