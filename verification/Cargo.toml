[package]
name = "faderflow"
version = "0.1.0"
edition = "2021"
publish = false

[dependencies]
toml = "=1.1.8"
serialport = { version = "=4.10.1", default-features = false }
iced = { version = "=0.14.0", default-features = false, features = ["tiny-skia", "x11", "image-without-codecs", "tokio"] }
tokio = { version = "=1.54.1", features = ["time"] }
image = { version = "=0.25.10", default-features = false, features = ["png"] }
