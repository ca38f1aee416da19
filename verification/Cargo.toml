[package]
name = "ats"
version = "0.1.0"
edition = "2021"
publish = false

[dependencies]
anyhow = "1"
aws-config = { version = "1", features = ["behavior-version-latest"] }
aws-sdk-ecr = "1"
aws-types = "1"
chrono = "0.4"
clap = { version = "4", features = ["derive"] }
copypasta = "0.10"
crossterm = "0.28"
ratatui = "0.29"
tokio = { version = "1", features = ["macros", "rt-multi-thread", "time"] }
