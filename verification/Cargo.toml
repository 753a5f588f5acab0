[package]
name = "libretro_backend"
version = "0.1.0"
edition = "2021"
publish = false

[dependencies]
libc = "0.2"
libretro-sys = "0.1"
