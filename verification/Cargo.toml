[package]
name = "rdict"
version = "0.1.0"
edition = "2021"
publish = false

[dependencies]
clap = { version = "=3.2.25", features = ["derive"] }
colored = "=2.2.0"
dirs = "=4.0.0"
indicatif = "0.17"
mp3-duration = "=0.1.10"
rodio = "=0.15.0"
serde_json = "=1.0.154"
sled = "=0.34.7"
ureq = "=2.12.1"
