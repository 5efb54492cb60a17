[package]
name = "gear_publish"
version = "0.1.0"
edition = "2021"
publish = false

[dependencies]
anyhow = "1"
chrono = "0.4"
handlebars = "*"
