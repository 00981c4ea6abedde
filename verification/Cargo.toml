[package]
name = "g14_perf_control"
version = "0.1.0"
edition = "2021"
publish = false

[dependencies]
anyhow = "*"
procfs = "*"
rog_fan_curve = "*"
serde = { version = "*", features = ["derive"] }
structopt = "*"
toml = "*"
