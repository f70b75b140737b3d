[package]
name = "opnfi"
version = "0.1.0"
edition = "2021"
publish = false

[dependencies]
clap = "2"
ctrlc = "3"
flate2 = "1"
hex = "0.4"
log = "0.4"
openssl = "0.10"
rand = "0.7"
reqwest = "0.9"
serde = { version = "1", features = ["derive"] }
serde_json = "1"
simple_logger = "1"
snap = "0.2"
sysinfo = "0.9"
toml = "0.5"
