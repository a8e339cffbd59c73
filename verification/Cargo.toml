[package]
name = "music_visualizer"
version = "0.1.0"
edition = "2021"
publish = false

[dependencies]
rustfft = "*"
hound = "*"
portaudio = "*"
