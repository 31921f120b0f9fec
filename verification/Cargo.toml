[package]
name = "line_view"
version = "0.1.0"
edition = "2021"
publish = false

[dependencies]
rustc-hash = "*"
home = "*"
clap = { version = "*", features = ["derive"] }
