[package]
name = "lois_proba"
version = "0.1.0"
edition = "2021"
publish = false

[dependencies]
rand_xoshiro = "*"
statrs = "*"
plotters = "*"
