[package]
name = "make_noise"
version = "0.1.0"
edition = "2021"
publish = false

[dependencies]
anyhow = "1"
cpal = "0.13"
ctrlc = "3"
