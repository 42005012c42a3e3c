[package]
name = "netmachines"
version = "0.1.0"
edition = "2021"
publish = false

[dependencies]
rotor = "0.6"
log = "0.4"
openssl = "0.10"
