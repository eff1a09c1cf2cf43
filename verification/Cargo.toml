[package]
name = "is_boxer_like"
version = "0.1.0"
edition = "2021"
publish = false

[dependencies]
serde = { version = "1", features = ["derive"] }
ron = "*"
clap = { version = "4", features = ["derive"] }
