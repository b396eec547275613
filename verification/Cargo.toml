[package]
name = "vsfab"
version = "0.1.0"
edition = "2021"
publish = false

[dependencies]
rustc-serialize = "0.3"
regex = "1"
url = "2"
time = "0.1"
rand = "0.3"
mio = "0.5"
hyper = { version = "0.9", default-features = false }
mqtt = "*"
