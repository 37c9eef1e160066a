[package]
name = "audio_engine"
version = "0.1.0"
edition = "2021"
publish = false

[dependencies]
ringbuf = "0.4"
rand = "0.8"
cpal = "*"
rodio = "*"
base64 = "0.22"
