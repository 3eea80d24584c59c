[package]
name = "pretackler"
version = "0.1.0"
edition = "2021"
publish = false

[dependencies]
anyhow = "*"
base64 = "=0.23.1"
bytecount = "=0.6.9"
clap = { version = "=4.6.7", features = ["derive"] }
futures-util = "=0.3.34"
mime_guess = "=2.0.5"
rand = "=0.10.3"
reqwest = { version = "=0.13.5", default-features = false, features = ["json", "stream"] }
serde = { version = "*", features = ["derive"] }
serde_json = "=1.0.151"
sysinfo = "=0.39.6"
tokio = { version = "*", features = ["full"] }
walkdir = "*"
