[package]
name = "tomat"
version = "0.1.0"
edition = "2021"
publish = false

[dependencies]
iced = { version = "0.14", default-features = false, features = ["svg", "tokio", "tiny-skia", "x11"] }
notify-rust = "4"
rodio = { version = "0.22", default-features = false, features = ["playback", "wav"] }
tokio = { version = "1", features = ["time"] }
tracing-subscriber = "0.3"
