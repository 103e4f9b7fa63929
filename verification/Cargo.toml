[package]
name = "dotman"
version = "0.1.0"
edition = "2021"
publish = false

[dependencies]
ansi_term = "0.12"
chrono = "0.4"
cron_rs = "*"
fs_extra = "1"
git2 = "*"
serde = { version = "1", features = ["derive"] }
serde_json = "1"
structopt = "0.3"
tempfile = "3"
terminal_size = "*"
