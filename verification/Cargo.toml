[package]
name = "botsim"
version = "0.1.0"
edition = "2021"
publish = false

[dependencies]
wasmtime = "=48.0.5"
tiny_http = "=0.12.0"
clap = { version = "=4.5.61", features = ["derive"] }
