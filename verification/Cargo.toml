[package]
name = "memcrs"
version = "0.1.0"
edition = "2021"
publish = false

[dependencies]
byte-unit = "4"
clap = { version = "4", features = ["derive"] }
dashmap = "5"
num_cpus = "1"
