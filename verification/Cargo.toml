[package]
name = "mymodbus"
version = "0.1.0"
edition = "2021"
publish = false

[dependencies]
anyhow = "1"
log = "0.4"
serialport = { version = "4", default-features = false }
signal-hook = "0.3"
ctrlc = "3"
