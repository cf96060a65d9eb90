[package]
name = "whisper"
version = "0.1.0"
edition = "2021"
publish = false

[dependencies]
ab_glyph = "0.2"
anyhow = "1"
clap = { version = "4", features = ["derive"] }
dialoguer = "0.11"
indicatif = "0.17"
reqwest = { version = "0.12", default-features = false, features = ["blocking", "rustls-tls"] }
serde = { version = "1", features = ["derive"] }
serde_json = "1"
smithay-client-toolkit = "0.20"
tiny-skia = "0.11"
toml = "0.8"
wayland-client = "0.31"
whisper-rs = "*"
