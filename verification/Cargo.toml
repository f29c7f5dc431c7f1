[package]
name = "rusty_pew_pew"
version = "0.1.0"
edition = "2021"
publish = false

[dependencies]
base64 = "=0.13.1"
inflate = "=0.4.5"
xml-rs = "=0.8.29"

[dependencies.sdl2]
version = "=0.37.0"
features = ["image"]
