[package]
name = "local_music_player"
version = "0.1.0"
edition = "2021"
publish = false

[dependencies]
rodio = { version = "=0.22.2", default-features = false, features = ["flac", "mp3", "mp4", "vorbis", "wav"] }
symphonia = { version = "=0.6.1", features = ["mp3"] }
uuid = { version = "=1.27.0", features = ["v4"] }
base64 = "=0.23.1"
