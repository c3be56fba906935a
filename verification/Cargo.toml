[package]
name = "hyperscan"
version = "0.1.0"
edition = "2021"
publish = false

[dependencies]
anyhow = "1"
foreign-types = "0.5"
libc = "0.2"

[dev-dependencies]
regex = "1"
