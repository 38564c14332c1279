[package]
name = "javascriptcore"
version = "0.1.0"
edition = "2021"
publish = false

[dependencies]
glib = "*"
glib-sys = "*"
gobject-sys = "*"
gtk = "*"
javascriptcore-rs-sys = "*"
libc = "*"
