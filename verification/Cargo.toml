[package]
name = "sccache"
version = "0.1.0"
edition = "2021"
publish = false

[dependencies]
sha1 = "0.10"
tempfile = "3"
number_prefix = "0.4"
