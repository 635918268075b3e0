[package]
name = "breadx-shim"
version = "0.1.0"
edition = "2021"
publish = false

[dependencies]
breadx = "*"
hashbrown = "*"
rustc-hash = "*"
libc = "*"
cstr_core = "*"
once_cell = "*"
