[package]
name = "skitter"
version = "0.1.0"
edition = "2021"
publish = false

[dependencies]
ahash = "0.8"
colosseum = "0.2"
rustc-hash = "1.1"
