[package]
name = "gloof"
version = "0.1.0"
edition = "2021"
publish = false

[dependencies]
glam = "*"
libc = "*"
x11 = { version = "*", features = ["xlib", "glx"] }
