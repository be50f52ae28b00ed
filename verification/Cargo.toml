[package]
name = "format_dispatch"
version = "0.1.0"
edition = "2021"
publish = false

[dependencies]
hex = "=0.4.3"
serde_cbor = "=0.11.2"
serde_json = "=1.0.151"
serde_yaml = "=0.9.34"
toml = "=1.1.7"
