[package]
name = "sqlite_undo"
version = "0.1.0"
edition = "2021"
publish = false

[dependencies]
rusqlite = "*"
fallible-iterator = "*"
