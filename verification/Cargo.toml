[package]
name = "racf"
version = "0.1.0"
edition = "2021"
publish = false

[dependencies]
battery = "*"
clap = { version = "*", features = ["derive"] }
getsys = "*"
num_cpus = "*"
owo-colors = "*"
psutil = "*"
serde = { version = "*", features = ["derive"] }
thiserror = "*"
toml = "*"
