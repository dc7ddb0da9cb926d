[package]
name = "rye_self"
version = "0.1.0"
edition = "2021"
publish = false

[dependencies]
anyhow = "1"
clap = { version = "4", features = ["derive"] }
clap_complete = "4"
console = "0.15"
dialoguer = "*"
flate2 = "1"
same-file = "1"
self-replace = "*"
sha2 = "0.10"
tempfile = "3"
whattheshell = "*"
