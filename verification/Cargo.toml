[package]
name = "maverick"
version = "0.1.0"
edition = "2021"
publish = false

[dependencies]
aes = "0.8"
cipher = "0.4"
ctr = "0.9"
cmac = "0.7"
sysinfo = "*"
clap = { version = "4", features = ["derive"] }
serde = { version = "1", features = ["derive"] }
serde_json = "1"
toml = "*"
tokio = { version = "1", features = ["rt", "macros", "time", "sync"] }
async-trait = "0.1"
