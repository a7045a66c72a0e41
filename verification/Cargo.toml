[package]
name = "textrender"
version = "0.1.0"
edition = "2021"
publish = false

[dependencies]
cairo-rs = "*"
pango = "*"
pangocairo = "*"
image = "0.24"
oxipng = "*"
