[package]
name = "sphinx_inv"
version = "0.1.0"
edition = "2021"
publish = false

[dependencies]
flate2 = "1"
anyhow = "1"
thiserror = "2"
strum = { version = "0.27", features = ["derive"] }
lazy-regex = "3"
color-eyre = "0.6"
tracing = "0.1"
