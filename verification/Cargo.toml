[package]
name = "fc_man"
version = "0.1.0"
edition = "2021"
publish = false

[dependencies]
clap = { version = "4", features = ["derive"] }
flate2 = "1"
log = "0.4"
nix = { version = "0.29", features = ["fs", "process"] }
serde = { version = "1", features = ["derive"] }
simplelog = "0.12"
tar = "0.4"
thiserror = "1"
tokio = { version = "1", features = ["macros", "rt-multi-thread", "sync", "process"] }
uuid = { version = "1", features = ["v4"] }
