[package]
name = "mouse_gestures"
version = "0.1.0"
edition = "2021"
publish = false

[dependencies]
druid = "=0.8.3"
kurbo = "=0.9.5"
log = "=0.4.34"
norad = "=0.19.2"
piet = "=0.6.2"
