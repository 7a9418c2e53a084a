[package]
name = "escucha"
version = "0.1.0"
edition = "2021"
publish = false

[dependencies]
anyhow = "*"
clap = { version = "*", features = ["derive"] }
dirs = "*"
env_logger = "*"
evdev = "*"
hound = "*"
libc = "*"
log = "*"
nix = { version = "*", features = ["signal", "process", "user"] }
rust-ini = "*"
serde = { version = "*", features = ["derive"] }
serde_json = "*"
tempfile = "*"
which = "*"
whisper-rs = "*"
