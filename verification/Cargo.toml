[package]
name = "maxminddb_rust"
version = "0.1.0"
edition = "2021"
publish = false

[dependencies]
maxminddb = "0.26"
memmap2 = "0.9"
ipnetwork = "0.21"
serde = "1"
pyo3 = "0.27"
