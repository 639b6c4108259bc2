[package]
name = "locale_registry"
version = "0.1.0"
edition = "2021"
publish = false

[dependencies]
json-gettext = "*"
serde_json = "*"
