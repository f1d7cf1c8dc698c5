[package]
name = "script_sandbox"
version = "0.1.0"
edition = "2021"
publish = false

[dependencies]
clap = { version = "4", features = ["derive"] }
rocket = "0.5"
tokio = { version = "1", features = ["full"] }
