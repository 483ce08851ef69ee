[package]
name = "thiserror_impl"
version = "0.1.0"
edition = "2021"
publish = false

[dependencies]
syn = "=1.0.109"
