[package]
name = "xiv-otp"
version = "0.1.0"
edition = "2021"
publish = false

[dependencies]
anyhow = "=1.0.104"
clap = { version = "=4.6.7", features = ["derive"] }
dialoguer = "=0.12.0"
oo7 = "=0.6.0"
procfs = "=0.18.0"
reqwest = { version = "=0.13.5", default-features = false }
tokio = { version = "=1.54.1", features = ["rt-multi-thread", "time", "net"] }
tokio-stream = "=0.1.19"
totp-rs = { version = "=6.0.0", features = ["otpauth", "zeroize"] }
tracing = "=0.1.44"
tracing-subscriber = { version = "=0.3.23", features = ["env-filter"] }
url = "=2.5.8"
zeroize = "=1.9.1"
