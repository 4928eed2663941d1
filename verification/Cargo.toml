[package]
name = "bdt"
version = "0.1.0"
edition = "2021"
publish = false

[dependencies]
chrono = "*"
clap = { version = "*", features = ["derive"] }
csv = "*"
handlebars = "*"
serde = { version = "*", features = ["derive"] }
serde_json = "*"
