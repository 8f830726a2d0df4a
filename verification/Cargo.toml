[package]
name = "decomp"
version = "0.1.0"
edition = "2021"
publish = false

[dependencies]
bytes = "1"
bzip2 = "0.4"
flate2 = "1"
xz2 = "0.1"
zstd = "0.13"
