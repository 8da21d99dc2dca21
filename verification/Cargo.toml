[package]
name = "textfmt"
version = "0.1.0"
edition = "2021"
publish = false

[dependencies]
unicode-segmentation = "1"
serde = { version = "1", features = ["derive"] }
toml = "0.8"
dirs = "5"
log = "0.4"
env_logger = "0.11"
tokio = { version = "1", features = ["macros", "rt-multi-thread", "sync"] }
crossterm = "0.28"
ratatui = "0.29"
arboard = "3"
enigo = "0.2"
winapi = { version = "0.3", features = ["winuser", "wincon"] }
