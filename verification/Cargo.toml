[package]
name = "vass"
version = "0.1.0"
edition = "2021"
publish = false

[dependencies]
hound = "3"
vst = "0.2"
sample = "0.10"
log = "0.4"
simple-logging = "2"
derive_builder = "0.7"
winapi = { version = "0.3", features = ["windef"] }
