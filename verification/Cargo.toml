[package]
name = "mpv_rpc"
version = "0.1.0"
edition = "2021"
publish = false

[dependencies]
discord-rich-presence = "=1.1.0"
musicbrainz_rs = { version = "=0.14.0", features = ["sync", "rustls"] }
serde = { version = "=1.0.229", features = ["derive"] }
serde_json = "=1.0.151"
mpv-client = "=1.1.0"
