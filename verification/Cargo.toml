[package]
name = "photorot"
version = "0.1.0"
edition = "2021"
publish = false

[dependencies]
kamadak-exif = "=0.5.5"
native-dialog = "=0.7.0"
iced = { version = "=0.13.1", default-features = false, features = ["tiny-skia"] }
iced_aw = { version = "0.11", default-features = false, features = ["tabs"] }
