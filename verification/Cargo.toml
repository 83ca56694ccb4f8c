[package]
name = "wymrs"
version = "0.1.0"
edition = "2021"
publish = false

[dependencies]
anyhow = "1"
num = "0.4"
palette = "0.7"
rand = "0.8"
rand_distr = "0.4"
sdl2 = "0.36"
