[package]
name = "noise_prekeys"
version = "0.1.0"
edition = "2021"
publish = false

[dependencies]
anyhow = "=1.0.104"
async-channel = "=2.5.0"
async-trait = "=0.1.92"
futures = "=0.3.34"
hex = "=0.4.3"
log = "=0.4.35"
prost = "=0.14.4"
rand = "=0.10.3"
wacore = { version = "=0.5.0", default-features = false }
wacore-binary = { version = "=0.5.0", default-features = false }
waproto = "=0.5.0"
