[package]
name = "marek_speech_recognition"
version = "0.1.0"
edition = "2021"
publish = false

[dependencies]
async-trait = "0.1"
byteorder = "1"
futures = "0.3"
futures-util = "0.3"
libloading = "0.8"
prost = "0.12"
tokio = { version = "1", features = ["fs", "macros", "rt-multi-thread", "time"] }
vosk = "*"
