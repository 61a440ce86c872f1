[package]
name = "navrs"
version = "0.1.0"
edition = "2021"
publish = false

[dependencies]
itertools = "*"
rand = "*"
clap = { version = "*", features = ["derive"] }
cpal = "*"
dashmap = "*"
log = "*"
mpris-server = "*"
notify-rust = { version = "*", default-features = false, features = ["z"] }
ratatui = { version = "*", default-features = false, features = ["crossterm"] }
serde = { version = "*", features = ["derive"] }
serde_default = "*"
serde-inline-default = "*"
submarine = "*"
symphonia = { version = "0.5.5", default-features = false, features = ["mp3", "flac", "ogg", "vorbis", "wav", "pcm"] }
thiserror = "*"
tokio = { version = "*", features = ["rt", "sync", "fs", "time", "macros"] }
toml = "*"
