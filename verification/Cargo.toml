[package]
name = "charactermap"
version = "0.1.0"
edition = "2021"
publish = false

[dependencies]
read-fonts = "*"
serde = { version = "1", features = ["derive"] }
serde_json = "1"
gtk4 = { version = "*", features = ["v4_12"] }
libadwaita = { version = "*", features = ["v1_5"] }
relm4 = { version = "*", features = ["libadwaita"] }
pango = "*"
