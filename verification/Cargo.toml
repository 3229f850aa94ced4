[package]
name = "ssh_session"
version = "0.1.0"
edition = "2021"
publish = false

[dependencies]
shell-escape = "0.1"
anyhow = "1"
clap = { version = "3.2", features = ["derive"] }
crossterm = "*"
env_logger = "*"
log = "0.4"
russh = "*"
termwiz = "*"
tokio = { version = "1", features = ["io-std", "io-util", "macros", "net", "rt-multi-thread"] }
