[package]
name = "brannon"
version = "0.1.0"
edition = "2021"
publish = false

[dependencies]
libc = "0.2"
time = { version = "0.3", features = ["formatting", "local-offset"] }
