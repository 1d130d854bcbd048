[package]
name = "ingest"
version = "0.1.0"
edition = "2021"
publish = false

[dependencies]
crossbeam-channel = "=0.5.17"
log = "*"
simplelog = "=0.12.2"
