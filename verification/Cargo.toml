[package]
name = "packet_trailer"
version = "0.1.0"
edition = "2021"
publish = false

[dependencies]
cxx = "1"
thiserror = "1"
webrtc-sys = "*"
