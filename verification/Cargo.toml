[package]
name = "concentratord"
version = "0.1.0"
edition = "2021"
publish = false

[dependencies]
anyhow = "1"
chirpstack_api = { version = "*", default-features = false }
hex = "0.4"
prost = "*"
zmq = "*"
