[package]
name = "sequencer"
version = "0.1.0"
edition = "2021"
publish = false

[dependencies]
anyhow = "1"
async-std = "1"
clap = { version = "4", features = ["derive", "env"] }
futures = "0.3"
