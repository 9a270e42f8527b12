[package]
name = "azul_frame"
version = "0.1.0"
edition = "2021"
publish = false

[dependencies]
gleam = "=0.6.19"
image = { version = "=0.22.5", default-features = false, features = ["png_codec", "jpeg", "gif_codec", "bmp"] }
font-loader = "=0.8.0"
webrender = "=0.60.0"
webrender_api = "=0.60.0"
# webrender_api 0.60 is written against this version of bincode and compiles with no later one
bincode = "=1.2.1"
