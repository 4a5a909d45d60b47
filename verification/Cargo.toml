[package]
name = "leftwm_theme_dark_nord"
version = "0.1.0"
edition = "2021"
publish = false

[dependencies]
strfmt = "*"
serde = { version = "1", features = ["derive"] }
serde_derive = "1"
serde_json = "1"
toml = "0.5"
thiserror = "1"
battery = "*"
systemstat = "*"
clap = { version = "3", features = ["derive"] }
clap_generate = "3"
tui = { version = "0.19", default-features = false, features = ["termion"] }
termion = "1"
