[package]
name = "base64_slash_command"
version = "0.1.0"
edition = "2021"
publish = false

[dependencies]
base64 = "*"
zed_extension_api = "*"
