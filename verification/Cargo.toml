[package]
name = "lcr_auto_configure"
version = "0.1.0"
edition = "2021"
publish = false

[dependencies]
clap = { version = "=4.6.7", features = ["derive"] }
eyre = "=0.6.14"
rustypot = "=1.11.0"
serialport = { version = "=4.10.1", default-features = false }
