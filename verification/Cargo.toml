[package]
name = "repeater_control"
version = "0.1.0"
edition = "2021"
publish = false

[dependencies]
serde = "*"
serde_derive = "*"
serde_json = "*"
paho-mqtt = { version = "*", default-features = false }
futures = "*"
async-std = "*"
