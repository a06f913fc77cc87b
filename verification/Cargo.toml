[package]
name = "multipeerconnectivity"
version = "0.5.0"
edition = "2021"
publish = false

[dependencies]
doom-fish-utils = "0.4.1"
serde_json = "1"
