[package]
name = "gtk_layer_sound"
version = "0.1.0"
edition = "2021"
publish = false

[dependencies]
gtk4 = "*"
gtk4-layer-shell = "*"
libpulse-binding = "*"
signal-hook = "*"
