[package]
name = "probe_run"
version = "0.1.0"
edition = "2021"
publish = false

[dependencies]
object = "*"
gimli = "*"
rustc-demangle = "*"
probe-rs = "*"
signal-hook = "*"
colored = "*"
log = "*"
anyhow = "*"
structopt = "*"
