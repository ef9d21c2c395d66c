[package]
name = "bsp_loader"
version = "0.1.0"
edition = "2021"
publish = false

[dependencies]
byteorder = "1"
anyhow = "1"
memmap = "0.7"
try-insert-ext = "0.1"
