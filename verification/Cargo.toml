[package]
name = "bout_tracker"
version = "0.1.0"
edition = "2021"
publish = false

[dependencies]
chrono = "*"
serde = { version = "*", features = ["derive"] }
serde_json = "*"
reqwest = "*"
tokio = { version = "*", features = ["macros", "rt-multi-thread"] }
serenity = "*"
