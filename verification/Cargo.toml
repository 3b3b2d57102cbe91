[package]
name = "dockertui"
version = "0.1.0"
edition = "2021"
publish = false

[dependencies]
anyhow = "1"
bollard = "0.16"
clap = { version = "4", features = ["derive"] }
crossterm = "0.27"
futures = "0.3"
portable-pty = "0.8"
ratatui = "0.26"
serde = { version = "1", features = ["derive"] }
tokio = { version = "1", features = ["full"] }
