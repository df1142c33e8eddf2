[package]
name = "proc_symbols"
version = "0.1.0"
edition = "2021"
publish = false

[dependencies]
anyhow = "*"
log = "*"
proc-maps = "*"
remoteprocess = "*"
