[package]
name = "prebuild"
version = "0.1.0"
edition = "2021"
publish = false

[dependencies]
lightningcss = "=1.0.0-alpha.72"
minify-js = "=0.6.0"
