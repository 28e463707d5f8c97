[package]
name = "docpipe"
version = "0.1.0"
edition = "2021"
publish = false

[dependencies]
serde = { version = "1", features = ["derive"] }
serde_json = "=1.0.151"
mime_guess = "=2.0.5"
reqwest = { version = "=0.13.5", default-features = false, features = ["blocking", "form"] }
