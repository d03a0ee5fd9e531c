[package]
name = "yish"
version = "0.1.0"
edition = "2021"
publish = false

[dependencies]
chrono = "0.4"
dirs = "5"
hound = "3.5"
serde = { version = "1", features = ["derive"] }
