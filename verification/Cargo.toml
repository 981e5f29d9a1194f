[package]
name = "pagecell"
version = "0.1.0"
edition = "2021"
publish = false

[dependencies]
hyper = "=0.13.10"
hyper-usse = "=0.3.2"
