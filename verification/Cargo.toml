[package]
name = "spootifer"
version = "0.1.0"
edition = "2021"
publish = false

[dependencies]
iso8601 = "*"
url = "*"
chrono = "*"
reqwest = { version = "*", default-features = false, features = ["blocking"] }
