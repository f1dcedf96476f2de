[package]
name = "corty_tui"
version = "0.1.0"
edition = "2021"
publish = false

[dependencies]
ratatui = "0.29"
tui-textarea = "0.7"
tokio = { version = "1", features = ["full"] }
color-eyre = "0.6"
clap = { version = "4", features = ["derive"] }
env_logger = "0.11"
serde = { version = "1", features = ["derive"] }
thiserror = "2"
uuid = { version = "1", features = ["v4"] }
futures = "0.3"
