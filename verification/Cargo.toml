[package]
name = "fn_ptr"
version = "0.1.0"
edition = "2021"
publish = false

[dependencies]
konst = "*"
