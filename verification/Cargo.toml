[package]
name = "arcella_inspect"
version = "0.1.0"
edition = "2021"
publish = false

[dependencies]
toml = "0.8"
syn = { version = "2", features = ["full", "visit"] }
quote = "1"
proc-macro2 = { version = "1", features = ["span-locations"] }
walkdir = "2"
serde = { version = "1", features = ["derive"] }
serde_yaml_ng = "0.10"
clap = { version = "4", features = ["derive"] }
