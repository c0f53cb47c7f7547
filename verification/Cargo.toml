[package]
name = "retirecalc"
version = "0.1.0"
edition = "2021"
publish = false

[dependencies]
eframe = "0.17"
epi = "0.17"
rand = "0.8"
