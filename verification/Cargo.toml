[package]
name = "dprint"
version = "0.1.0"
edition = "2021"
publish = false

[dependencies]
anyhow = "1"
deno_terminal = "*"
url = "2"
