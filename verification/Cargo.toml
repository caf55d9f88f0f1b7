[package]
name = "subcall"
version = "0.1.0"
edition = "2021"
publish = false

[dependencies]
oasis-cbor-value = "*"
primitive-types = "=0.14.0"
fixed-hash = "=0.8.0"
uint = "=0.10.2"
