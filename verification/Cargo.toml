[package]
name = "payload_staging"
version = "0.1.0"
edition = "2021"
publish = false

[dependencies]
hxdmp = "*"
log = "0.4"
