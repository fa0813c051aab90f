[package]
name = "mpd_presence"
version = "0.1.0"
edition = "2021"
publish = false

[dependencies]
lofty = "*"
reqwest = { version = "*", default-features = false, features = ["blocking", "multipart", "rustls-tls"] }
serde_json = "*"
mpd = "*"
discord-rich-presence = "*"
dirs = "*"
