[package]
name = "chipsynth"
version = "0.1.0"
edition = "2021"
publish = false

[dependencies]
csv = "1"
rodio = { version = "0.17", default-features = false }
