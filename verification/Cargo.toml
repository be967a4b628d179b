[package]
name = "dnstap"
version = "0.1.0"
edition = "2021"
publish = false

[dependencies]
mio = "=0.6.23"
protobuf = "=3.7.2"

[dev-dependencies]
framestream = "=0.2.6"
