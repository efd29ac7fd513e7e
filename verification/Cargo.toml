[package]
name = "error_collector"
version = "0.1.0"
edition = "2021"
publish = false

[dependencies]
syn = "1"

[dev-dependencies]
proc-macro2 = "1"
