[package]
name = "liebert_mpx"
version = "0.1.0"
edition = "2021"
publish = false

[dependencies]
html_parser = "=0.7.0"
reqwest = { version = "=0.13.5", default-features = false, features = ["form"] }
serde = { version = "=1.0.229", features = ["derive"] }
