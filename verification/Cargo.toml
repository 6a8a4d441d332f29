[package]
name = "engine_core"
version = "0.1.0"
edition = "2021"
publish = false

[dependencies]
anyhow = "1"
ash = "0.38"
ash-window = "0.13"
tracing-subscriber = "0.3"
winit = "0.30"
