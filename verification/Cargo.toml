[package]
name = "voice_hotkeys"
version = "0.1.0"
edition = "2021"
publish = false

[dependencies]
anyhow = "1"
arboard = { version = "3", default-features = false }
cpal = "0.15"
hound = "3.5"
inputbot = "0.6"
tokio = { version = "1", features = ["macros", "rt-multi-thread"] }
