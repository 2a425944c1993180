[package]
name = "yomi_kernel"
version = "0.1.0"
edition = "2021"
publish = false

[dependencies]
anyhow = "1"
bitflags = "2"
clap = { version = "4", features = ["derive"] }
colored = "2"
spin = "0.9"
