[package]
name = "xtask_core"
version = "0.1.0"
edition = "2021"
publish = false

[dependencies]
anyhow = "1"
clap = { version = "4", features = ["derive"] }
rand = "0.8"
regex = "1"
strum = { version = "0.26", features = ["derive"] }
