[package]
name = "pagegate"
version = "0.1.0"
edition = "2021"
publish = false

[dependencies]
actix-web = "4"
chrono = "0.4"
serde_json = "1"
static-files = "0.2"
tera = "1"
