[package]
name = "event_loop"
version = "0.1.0"
edition = "2021"
publish = false

[dependencies]
wasi = "0.11"
argparse = "0.2"
libc = "0.2"
