[package]
name = "gleam_new"
version = "0.1.0"
edition = "2021"
publish = false

[dependencies]
regex = "1"
serde = { version = "1", features = ["derive"] }
strum = "0.20"
strum_macros = "0.20"
