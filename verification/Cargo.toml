[package]
name = "mail_read"
version = "0.1.0"
edition = "2021"
publish = false

[dependencies]
mail-parser = "*"
serde = { version = "*", features = ["derive"] }
serde_json = "*"
clap = { version = "*", features = ["derive"] }
color-eyre = "*"
