[package]
name = "tfdocs"
version = "0.1.0"
edition = "2021"
publish = false

[dependencies]
chrono = { version = "0.4", features = ["serde"] }
clap = { version = "4", features = ["derive"] }
reqwest = { version = "0.12", features = ["json"] }
serde = { version = "1", features = ["derive"] }
termimad = "*"
tokio = { version = "1", features = ["macros", "rt-multi-thread"] }
