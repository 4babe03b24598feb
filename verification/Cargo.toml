[package]
name = "paperoni"
version = "0.1.0"
edition = "2021"
publish = false

[dependencies]
epub-builder = "0.4"
md5 = "0.7"
kuchiki = "0.8"
comfy-table = "*"
indicatif = "*"
