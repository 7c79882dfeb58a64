[package]
name = "media_tools"
version = "0.1.0"
edition = "2021"
publish = false

[dependencies]
clap = { version = "4", features = ["derive"] }
env_logger = "*"
hound = "*"
image = "*"
imageproc = "*"
log = "0.4"
mp3lame-encoder = "*"
serde_json = "1"
symphonia = { version = "0.5", features = ["mp3"] }
thiserror = "*"
vorbis_rs = "*"
