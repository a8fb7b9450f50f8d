[package]
name = "code-voice"
version = "0.1.0"
edition = "2021"
publish = false

[dependencies]
anyhow = "1"
arboard = { version = "3", default-features = false }
clap = { version = "4", features = ["derive"] }
daemonize = "0.5"
dirs = "5"
global-hotkey = "0.5"
nix = { version = "0.27", features = ["signal", "process"] }
num_cpus = "1"
reqwest = { version = "0.11", default-features = false, features = ["blocking", "rustls-tls"] }
tokio = { version = "1", features = ["full"] }
tracing = "0.1"
tracing-subscriber = { version = "0.3", features = ["env-filter"] }
