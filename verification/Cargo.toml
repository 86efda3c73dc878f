[package]
name = "whether"
version = "0.1.0"
edition = "2021"
publish = false

[dependencies]
weathervane = "=0.14.0"
chrono = "=0.4.45"
serde = { version = "=1.0.229", features = ["derive"] }
reqwest = { version = "=0.12.28", features = ["json"] }
tokio = { version = "=1.54.1", features = ["rt", "macros", "process"] }
