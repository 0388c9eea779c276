[package]
name = "annotation_tools"
version = "0.1.0"
edition = "2021"
publish = false

[dependencies]
anyhow = "1"
gdk-pixbuf = "0.20"
hex_color = "3"
pangocairo = "0.20"
relm4 = { version = "0.9", default-features = false }
