[package]
name = "vdo"
version = "0.1.0"
edition = "2021"
publish = false

[dependencies]
glib-sys = "0.20.10"
gobject-sys = "0.20.10"
