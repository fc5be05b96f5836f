[package]
name = "html_sanitize"
version = "0.1.0"
edition = "2021"
publish = false

[dependencies]
ammonia = "*"
syn = "*"
proc-macro2 = "*"
quote = "*"
proc-macro-crate = "*"
