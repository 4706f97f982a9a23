[package]
name = "nes"
version = "0.1.0"
edition = "2021"
publish = false

[dependencies]
anyhow = "1"
env_logger = "*"
log = "0.4"
minifb = "*"
regex = "1"
rs6502 = "*"
web-audio-api = "*"
