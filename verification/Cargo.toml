[package]
name = "av_sync"
version = "0.1.0"
edition = "2021"
publish = false

[dependencies]
anyhow = "1"
ffmpeg-next = "*"
sdl2 = "*"
