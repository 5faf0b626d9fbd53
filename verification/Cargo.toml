[package]
name = "sanhuoai"
version = "0.1.0"
edition = "2021"
publish = false

[dependencies]
rusqlite = { version = "*", features = ["bundled"] }
libc = "*"
dirs-next = "*"
