[package]
name = "cdrs_async"
version = "0.1.0"
edition = "2021"
publish = false

[dependencies]
cassandra-proto = "*"
lz4-compress = "*"
snap = "*"
native-tls = "*"
