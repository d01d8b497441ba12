[package]
name = "media_relay"
version = "0.1.0"
edition = "2021"
publish = false

[dependencies]
cpal = { version = "0.16.0", features = ["jack"] }
crossbeam-channel = "0.5.17"
log = "0.4.34"
v4l = "0.14.0"
