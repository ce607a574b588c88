[package]
name = "cargo_scan"
version = "0.1.0"
edition = "2021"
publish = false

[dependencies]
anyhow = "=1.0.104"
cargo-lock = "=9.0.0"
clap = { version = "=4.6.7", features = ["derive"] }
log = "=0.4.34"
petgraph = "=0.6.5"
proc-macro2 = { version = "=1.0.107", features = ["span-locations"] }
syn = { version = "=2.0.119", features = ["full", "visit"] }
walkdir = "=2.5.0"
