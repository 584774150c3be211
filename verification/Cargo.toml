[package]
name = "gen_wasi"
version = "0.1.0"
edition = "2021"
publish = false

[dependencies]
heck = "*"
witx = "*"
anyhow = "*"
clap = "*"
