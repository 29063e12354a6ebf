[package]
name = "noise_animator"
version = "0.1.0"
edition = "2021"
publish = false

[dependencies]
noise = "0.9"
rand = "0.8"
