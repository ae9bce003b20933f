[package]
name = "aderyn_gemini"
version = "0.1.0"
edition = "2021"
publish = false

[dependencies]
clap = { version = "4", features = ["derive"] }
indoc = "2"
serde_json = "1"
tokio = { version = "1", features = ["rt-multi-thread", "process", "io-util"] }
toml = "0.8"
