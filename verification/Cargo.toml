[package]
name = "dra"
version = "0.1.0"
edition = "2021"
publish = false

[dependencies]
flate2 = "1"
xz2 = "0.1"
bzip2 = "0.4"
urlencoding = "2"
