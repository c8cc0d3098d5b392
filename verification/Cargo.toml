[package]
name = "profile_import"
version = "0.1.0"
edition = "2021"
publish = false

[dependencies]
anyhow = "=1.0.104"
ferinth = "=2.11.1"
furse = "=1.5.15"
inquire = "=0.9.4"
libium = "=1.30.0"
zip = "~2.1"
zip-extensions = "=0.8.0"
