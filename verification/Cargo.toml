[package]
name = "gen_ui"
version = "0.1.0"
edition = "2021"
publish = false

[dependencies]
makepad-widgets = "*"
toml_edit = "*"
