[package]
name = "usb_audio_sniffer"
version = "0.1.0"
edition = "2021"
publish = false

[dependencies]
anyhow = "1"
bitfield = "*"
clap = { version = "4", features = ["derive"] }
crossbeam = "0.8"
env_logger = "0.11"
log = "0.4"
nusb = { version = "0.2", features = ["tokio"] }
pipewire = "0.8"
tokio = { version = "1", features = ["rt", "macros", "io-util"] }
