[package]
name = "regex_map"
version = "0.1.0"
edition = "2021"
publish = false

[dependencies]
regex = "1"
serde_json = "1"
once_cell = "1"
eyre = "0.6"
fluvio-smartmodule = "*"
