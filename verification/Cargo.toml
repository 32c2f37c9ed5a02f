[package]
name = "metadump"
version = "0.1.0"
edition = "2021"
publish = false

[dependencies]
anyhow = "=1.0.104"
flatbuffers = "=25.12.19"
