[package]
name = "dyt"
version = "0.1.0"
edition = "2021"
publish = false

[dependencies]
hound = "3"
dirs = "5"
toml = "0.8"
serde = { version = "1", features = ["derive"] }
anyhow = "1"
axum = "0.7"
tokio = { version = "1", features = ["rt-multi-thread", "macros", "net"] }
reqwest = { version = "0.12", default-features = false, features = ["blocking"] }
clap = { version = "4", features = ["derive"] }
cpal = "0.15"
ringbuf = "0.4"
arboard = { version = "3", default-features = false }
tracing = "0.1"
tracing-subscriber = "0.3"
whisper-rs = "*"
