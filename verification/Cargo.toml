[package]
name = "cory"
version = "0.1.0"
edition = "2021"
publish = false

[dependencies]
hound = "3.5"
cpal = "0.15"
crossterm = "0.27"
ratatui = "0.26"
directories = "5"
eyre = "0.6"
serde = { version = "1", features = ["derive"] }
serde_json = "1"
