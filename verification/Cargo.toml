[package]
name = "gfm_table"
version = "0.1.0"
edition = "2021"
publish = false

[dependencies]
flexstr = "=0.8.0"
indexmap = "=1.9.3"
