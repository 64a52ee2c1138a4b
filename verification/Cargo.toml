[package]
name = "emmylua_code_analysis"
version = "0.1.0"
edition = "2021"
publish = false

[dependencies]
serde = { version = "1", features = ["derive"] }
schemars = "*"
lsp-types = "*"
rust-i18n = "*"
include_dir = "*"
