[package]
name = "lamper"
version = "0.1.0"
edition = "2021"
publish = false

[dependencies]
serde_json = "1"
rand = "0.8"
dft = "*"
libpulse-binding = "2"
libpulse-simple-binding = "2"
