[package]
name = "stylua_cli"
version = "0.1.0"
edition = "2021"
publish = false

[dependencies]
anyhow = "=1.0.104"
crossbeam-channel = "=0.5.17"
globset = "=0.4.20"
ignore = "=0.4.33"
similar = "=2.7.0"
structopt = "=0.3.26"
threadpool = "=1.8.1"
toml = "0.5"
