[package]
name = "stl_thumb"
version = "0.1.0"
edition = "2021"
publish = false

[dependencies]
ahash = "*"
cgmath = "*"
clap = "*"
glium = "0.32"
image = "*"
libc = "*"
log = "*"
mint = "*"
stderrlog = "*"
stl_io = "*"
threemf = "*"
tobj = "*"
