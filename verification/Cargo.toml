[package]
name = "gstscream"
version = "0.1.0"
edition = "2021"
publish = false

[dependencies]
glib = "0.14"
gstreamer = "0.17"
gstreamer-video = "0.17"
