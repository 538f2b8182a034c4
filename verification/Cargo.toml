[package]
name = "u-siem-enricher"
version = "0.1.0"
edition = "2021"
publish = false

[dependencies]
u-siem = "*"
coarsetime = "*"
