[package]
name = "ormx-macros"
version = "0.1.0"
edition = "2021"
publish = false

[dependencies]
itertools = "*"
proc-macro2 = "1"
quote = "1"
syn = "*"
