[package]
name = "bbkit"
version = "0.1.0"
edition = "2021"
publish = false

[dependencies]
clap = "2"
serde = { version = "1", features = ["derive"] }
serde_yaml = "0.9"
walkdir = "2"
zip = { version = "0.6", default-features = false, features = ["deflate"] }
dirs-next = "2"
open = "3"
