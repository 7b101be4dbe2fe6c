[package]
name = "openzwave_stateful"
version = "0.1.0"
edition = "2021"
publish = false

[dependencies]
log = "*"
notify = "*"
openzwave = "*"
