[package]
name = "rambo"
version = "0.1.0"
edition = "2021"
publish = false

[dependencies]
sysinfo = { version = "0.31", default-features = false, features = ["system"] }
serde = { version = "1", features = ["derive"] }
serde_json = "1"
toml = "0.8"
tracing = "0.1"
dirs = "6"
clap = { version = "4", default-features = false, features = ["std", "derive", "help", "usage", "error-context"] }
notify-rust = "4"
ksni = "0.2"
