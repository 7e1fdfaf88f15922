[package]
name = "sc_game"
version = "0.1.0"
edition = "2021"
publish = false

[dependencies]
cgmath = "0.18"
winit = "0.28"
vulkano = "0.34"
vulkano-win = "0.34"
