[package]
name = "clai"
version = "0.1.0"
edition = "2021"
publish = false

[dependencies]
regex = "*"
serde_json = "*"
serde = { version = "*", features = ["derive"] }
clap = { version = "*", features = ["derive"] }
toml = "*"
reqwest = { version = "*", default-features = false, features = ["json"] }
tokio = { version = "*", features = ["rt", "macros", "time"] }
async-trait = "*"
atty = "*"
crossterm = "*"
directories = "*"
signal-hook = "*"
sysinfo = "*"
