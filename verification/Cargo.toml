[package]
name = "x52"
version = "0.1.0"
edition = "2021"
publish = false

[dependencies]
anyhow = "1"
async-hid = "*"
async-io = "2"
futures-lite = "2"
log = "0.4"
nusb = "*"
smol = "2"
thiserror = "2"
