[package]
name = "rotor"
version = "0.1.0"
edition = "2021"
publish = false

[dependencies]
memchr = "=2.8.3"
mio = { version = "=1.2.4", features = ["os-poll", "os-ext", "net"] }
