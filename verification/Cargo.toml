[package]
name = "pngquant"
version = "0.1.0"
edition = "2021"
publish = false

[dependencies]
getopts = "0.2"
wild = "*"
libc = "0.2"
imagequant-sys = "*"
libpng-sys = "*"
