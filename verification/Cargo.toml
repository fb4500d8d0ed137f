[package]
name = "profirust"
version = "0.6.0"
edition = "2021"
publish = false

[dependencies]
embedded-hal = "0.2"
fugit = "0.3"
log = "0.4"
nb = "1"
pio = "0.2"
rp2040-hal = "0.10"
