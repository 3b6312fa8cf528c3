[package]
name = "mdbx_db"
version = "0.1.0"
edition = "2021"
publish = false

[dependencies]
libc = "0.2"
mdbx-sys = "*"
parking_lot = "0.12"
