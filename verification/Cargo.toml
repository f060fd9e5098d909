[package]
name = "spirit_island_solver"
version = "0.1.0"
edition = "2021"
publish = false

[dependencies]
rand = "0.8"
rand_chacha = "0.3"
itertools = "0.10"
crossbeam = "0.8"
clap = "2"
rust-crypto = "0.2"
simple-error = "0.2"
