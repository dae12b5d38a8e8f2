[package]
name = "bookshelf_icons"
version = "0.1.0"
edition = "2021"
publish = false

[dependencies]
anyhow = "1"
clap = { version = "4", features = ["derive"] }
convert_case = "0.6"
serde = { version = "1", features = ["derive"] }
serde_json = "1"
xml-rs = "0.8"
