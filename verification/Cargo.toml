[package]
name = "vicis"
version = "0.1.0"
edition = "2021"
publish = false

[dependencies]
id-arena = "2.2.1"
