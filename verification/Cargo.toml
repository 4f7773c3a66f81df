[package]
name = "gba_core"
version = "0.1.0"
edition = "2021"
publish = false

[dependencies]
bincode = "1.3"
clap = { version = "4", features = ["derive"] }
env_logger = "0.11"
log = "0.4"
sdl2 = "0.37"
serde = { version = "1", features = ["derive"] }
serde_json = "1"
zstd = "0.13"
