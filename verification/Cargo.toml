[package]
name = "coreaudio"
version = "0.1.0"
edition = "2021"
publish = false

[dependencies]
coreaudio-sys = "*"
objc2-audio-toolbox = "*"
objc2-core-audio-types = "*"
