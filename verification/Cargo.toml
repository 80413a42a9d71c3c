[package]
name = "jpre"
version = "0.1.0"
edition = "2021"
publish = false

[dependencies]
anyhow = "1"
attohttpc = { version = "*", default-features = false }
console = "*"
indicatif = "0.15"
libc = "0.2"
libflate = "1"
log = "0.4"
once_cell = "1"
tar = "0.4"
tempdir = "0.3"
toml = "0.5"
