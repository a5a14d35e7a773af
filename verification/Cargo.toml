[package]
name = "workmux"
version = "0.1.0"
edition = "2021"
publish = false

[dependencies]
anyhow = "1"
getrandom = "0.3"
pathdiff = "0.2"
serde = { version = "1", features = ["derive"] }
serde_json = "1"
tabled = { version = "0.20", features = ["ansi"] }
tracing = "0.1"
