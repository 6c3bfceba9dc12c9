[package]
name = "call_bridge"
version = "0.1.0"
edition = "2021"
publish = false

[dependencies]
candid = "=0.10.37"
serde = "=1.0.229"
