[package]
name = "maloja_rs"
version = "0.1.0"
edition = "2021"
publish = false

[dependencies]
chrono = { version = "0.4", default-features = false, features = ["std"] }
reqwest = { version = "0.12", features = ["json"] }
serde = { version = "1", features = ["derive"] }
serde_qs = "*"
tokio = { version = "1", features = ["rt", "rt-multi-thread"] }
