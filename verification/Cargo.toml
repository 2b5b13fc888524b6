[package]
name = "kime"
version = "0.1.0"
edition = "2021"
publish = false

[dependencies]
ctrlc = "*"
daemonize = "*"
log = "*"
serde = { version = "*", features = ["derive"] }
serde_yaml = "*"
xdg = "*"
