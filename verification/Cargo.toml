[package]
name = "octocore"
version = "0.1.0"
edition = "2021"
publish = false

[dependencies]
fundsp = "0.15"
typenum = "1"
