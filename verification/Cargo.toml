[package]
name = "fleet"
version = "0.1.0"
edition = "2021"
publish = false

[dependencies]
age = "*"
anyhow = "*"
chrono = { version = "*", features = ["serde"] }
clap = { version = "*", features = ["derive"] }
futures = "*"
itertools = "*"
serde = { version = "*", features = ["derive"] }
tempfile = "*"
tokio = { version = "*", features = ["rt", "macros", "process", "time"] }
tracing = "*"
tracing-subscriber = { version = "*", features = ["env-filter"] }
