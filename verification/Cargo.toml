[package]
name = "plippet"
version = "0.1.0"
edition = "2021"
publish = false

[dependencies]
anyhow = "1"
ashpd = { version = "0.10", default-features = false, features = ["tokio"] }
clap = { version = "4", features = ["derive"] }
directories = "5"
serde = { version = "1", features = ["derive"] }
tokio = { version = "1", features = ["rt", "time"] }
toml = "0.8"
