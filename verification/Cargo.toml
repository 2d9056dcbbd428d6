[package]
name = "cio"
version = "0.1.0"
edition = "2021"
publish = false

[dependencies]
chrono = { version = "=0.4.45", features = ["serde"] }
serde = { version = "=1.0.229", features = ["derive"] }
serde_json = "=1.0.154"
handlebars = "=4.5.0"
gsuite-api = "=0.1.33"
google-drive = "=0.1.25"
revai = "=0.1.3"
tripactions = "=0.1.1"
