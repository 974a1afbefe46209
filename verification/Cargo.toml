[package]
name = "qtshock"
version = "0.1.0"
edition = "2021"
publish = false

[dependencies]
dns-lookup = "2"
espflash = { version = "=3.3.0", default-features = false, features = ["serialport"] }
poem = "=3.1.12"
reqwest = "=0.12.28"
rfd = { version = "=0.17.2", default-features = false, features = ["xdg-portal"] }
rosc = "=0.11.4"
serde = { version = "1", features = ["derive"] }
serialport = { version = "=4.10.1", default-features = false }
tempfile = "=3.27.0"
tracing-subscriber = "=0.3.23"
vdf-serde = "=0.3.0"
