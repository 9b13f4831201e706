[package]
name = "time_tracker"
version = "0.1.0"
edition = "2021"
publish = false

[dependencies]
chrono = { version = "0.4", features = ["serde"] }
clap = { version = "4", features = ["derive"] }
error-stack = "0.5"
serde = { version = "1", features = ["derive"] }
serde_json = "1"
thiserror = "1"
