[package]
name = "monkeytype_oxide"
version = "0.1.0"
edition = "2021"
publish = false

[dependencies]
chrono = "0.4"
crossterm = "0.28"
env_logger = "0.11"
log = "0.4"
rand = "0.8"
random_word = { version = "*", features = ["de", "en"] }
ratatui = "0.29"
serde = { version = "1", features = ["derive"] }
serde_json = "1"
textwrap = "0.16"
