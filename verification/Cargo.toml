[package]
name = "rooting"
version = "0.1.0"
edition = "2021"
publish = false

[dependencies]
generativity = "=1.2.1"
qcell = { version = "=0.5.5", features = ["generativity"] }
