[package]
name = "rocker"
version = "0.1.0"
edition = "2021"
publish = false

[dependencies]
clap = { version = "4", features = ["derive"] }
futures = "0.3"
reqwest = { version = "0.11", default-features = false }
serde = { version = "1", features = ["derive"] }
serde_json = "1"
shiplift = "0.7"
tokio = { version = "1", features = ["macros", "rt-multi-thread"] }
