[package]
name = "rustegram"
version = "0.1.0"
edition = "2021"
publish = false

[dependencies]
dynamic_reload = "*"
env_logger = "0.6"
futures = "0.1"
http = "0.1"
hyper = "0.12"
lazy_static = "1"
log = "0.4"
notify = "4"
parking_lot = "0.9"
rand = "0.8"
regex = "1"
reqwest = { version = "0.9", default-features = false }
serde = "1"
serde_derive = "1"
serde_json = "1"
toml = "0.5"
