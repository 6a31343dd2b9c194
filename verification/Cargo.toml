[package]
name = "penflow"
version = "0.1.0"
edition = "2021"
publish = false

[dependencies]
image = "*"
leptess = "*"
log = "*"
oar-ocr = "*"
rdev = "*"
sdl3 = "*"
simple-logging = "*"
taffy = "*"
