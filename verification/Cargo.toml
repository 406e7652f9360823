[package]
name = "todo-list"
version = "0.1.0"
edition = "2021"
publish = false

[dependencies]
anyhow = "=1.0.104"
clap = { version = "=4.6.7", features = ["derive"] }
dirs = "=6.0.0"
glob = "=0.3.4"
log = "=0.4.34"
ratatui = "=0.29.0"
smol = "=2.0.2"
time = { version = "=0.3.55", features = ["parsing"] }
tui-logger = "0.17"
turso = "=0.4.4"
