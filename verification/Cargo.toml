[package]
name = "hack_toolchain"
version = "0.1.0"
edition = "2021"
publish = false

[dependencies]
rustc-hash = "1.1"
anyhow = "1"
thiserror = "1"
miette = { version = "5", features = ["fancy"] }
