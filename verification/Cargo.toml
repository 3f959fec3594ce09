[package]
name = "dotzilla"
version = "0.1.0"
edition = "2021"
publish = false

[dependencies]
anyhow = "1"
clap = { version = "4", features = ["derive", "env"] }
clap_complete = "4"
colored = "*"
crossterm = "*"
diffy = "*"
env_logger = "*"
fs_extra = "1"
home = "*"
log = "0.4"
ratatui = "*"
serde = { version = "1", features = ["derive"] }
serde_json = "1"
which = "*"
