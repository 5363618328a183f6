[package]
name = "meow_simulator"
version = "0.1.0"
edition = "2021"
publish = false

[dependencies]
rand = "0.8"
dirs = "5"
serde = { version = "1", features = ["derive"] }
toml = "0.8"
gtk4 = { version = "0.9", features = ["v4_10"] }
libadwaita = "0.7"
gstreamer = "0.23"
futures-util = "0.3"
winreg = "0.52"
zip = { version = "2", default-features = false, features = ["deflate"] }
