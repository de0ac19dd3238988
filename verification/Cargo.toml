[package]
name = "justlist"
version = "0.1.0"
edition = "2021"
publish = false

[dependencies]
serde = { version = "=1.0.229", features = ["derive"] }
serde_json = "=1.0.154"
structopt = "=0.3.26"
atty = "=0.2.14"
walkdir = "=2.5.0"
tui = "=0.19.0"
crossterm = "=0.25.0"
attohttpc = { version = "=0.17.0", features = ["charsets"] }
nix = "=0.26.4"
