[package]
name = "dispair"
version = "0.1.0"
edition = "2021"
publish = false

[dependencies]
rand = "0.9"
serde = { version = "1", features = ["derive"] }
serde_json = "1"
ratatui = "0.29"
crossterm = "0.28"
dirs = "6"
textwrap = "0.16"
color-eyre = "0.6"
strum = { version = "0.27", features = ["derive"] }
