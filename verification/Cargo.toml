[package]
name = "recurse"
version = "0.1.0"
edition = "2021"
publish = false

[dependencies]
anyhow = "1"
regex = "=1.13.1"
structopt = "=0.3.26"
walkdir = "=2.5.0"

[dev-dependencies]
tempfile = "3"
