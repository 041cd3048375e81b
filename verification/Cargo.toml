[package]
name = "raytracer"
version = "0.1.0"
edition = "2021"
publish = false

[dependencies]
cgmath = "=0.18.0"
clap = { version = "=3.2.25", features = ["cargo"] }
image = "=0.24.9"
indicatif = "=0.17.11"
num_cpus = "=1.17.0"
rand = "=0.8.8"
rayon = "=1.12.0"
