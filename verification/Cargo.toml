[package]
name = "qx"
version = "0.1.0"
edition = "2021"
publish = false

[dependencies]
clap = { version = "*", features = ["derive"] }
color-eyre = "*"
crossterm = "*"
dirs = "*"
open = "*"
ratatui = "*"
serde = { version = "*", features = ["derive"] }
serde_yaml = "*"
toml_edit = "*"
tracing = "*"
tracing-subscriber = { version = "*", features = ["env-filter"] }
url = { version = "*", features = ["serde"] }
