[package]
name = "fastsheet"
version = "0.1.0"
edition = "2021"
publish = false

[dependencies]
calamine = "=0.16.2"
libc = "=0.2.191"

[dev-dependencies]
zip = { version = "=0.5.13", default-features = false, features = ["deflate"] }
