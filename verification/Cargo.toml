[package]
name = "scam"
version = "0.1.0"
edition = "2021"
publish = false

[dependencies]
blake3 = "1"
clap = { version = "4", features = ["derive"] }
filetime = "0.2"
rayon = "1"
same-file = "1"
thiserror = "2"
walkdir = "2"
