[package]
name = "ethcore_service"
version = "0.1.0"
edition = "2021"
publish = false

[dependencies]
ansi_term = "=0.10.2"
ethcore = "=0.1.0"
ethcore-io = { version = "=1.12.0", features = ["mio"] }
kvdb = "=0.13.0"
kvdb-rocksdb = "=0.21.0"
log = "=0.4.34"
