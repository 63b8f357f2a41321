[package]
name = "dynamodb-tui"
version = "0.1.0"
edition = "2021"
publish = false

[dependencies]
regex = "*"
chrono = "*"
anyhow = "*"
crossterm = "*"
ratatui = "*"
tokio = { version = "*", features = ["full"] }
aws-config = { version = "*", features = ["behavior-version-latest"] }
aws-sdk-dynamodb = "*"
