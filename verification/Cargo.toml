[package]
name = "rs_imgix"
version = "0.1.0"
edition = "2021"
publish = false

[dependencies]
qstring = "*"
