[package]
name = "proxychain"
version = "0.1.0"
edition = "2021"
publish = false

[dependencies]
bytes = "1"
clap = "4"
log = "0.4"
mio = { version = "1", features = ["os-poll", "net"] }
pretty_env_logger = "0.5"
trust-dns-resolver = "0.23"
url = "2"
