[package]
name = "moby9098"
version = "0.1.0"
edition = "2021"
publish = false
