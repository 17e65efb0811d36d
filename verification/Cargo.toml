[package]
name = "ringline"
version = "0.1.0"
edition = "2021"
publish = false

[dependencies]
clap = { version = "*", features = ["derive"] }
tracing = "*"
tracing-subscriber = "*"
rand = "*"
rand_distr = "*"
better-panic = "*"
human-panic = "*"
