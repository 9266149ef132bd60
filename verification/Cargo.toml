[package]
name = "raytracing_in_one_weekend"
version = "0.1.0"
edition = "2021"
publish = false

[dependencies]
glam = "*"
rand = "*"
rand_distr = "*"
rayon = "*"
