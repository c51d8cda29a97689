[package]
name = "ptt_player"
version = "0.1.0"
edition = "2021"
publish = false

[dependencies]
anyhow = "1"
nix = { version = "0.29", features = ["fs", "ioctl"] }
rodio = "0.19"
