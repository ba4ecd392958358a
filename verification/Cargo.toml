[package]
name = "paperd"
version = "0.1.0"
edition = "2021"
publish = false

[dependencies]
clap = "2.33"
nix = "0.15"
serde = { version = "1", features = ["derive"] }
serde_json = "1"
