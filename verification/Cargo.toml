[package]
name = "session_capture"
version = "0.1.0"
edition = "2021"
publish = false

[dependencies]
chrono = "*"
serde = { version = "*", features = ["derive"] }
serde_json = "*"
display-info = "*"
rdev = "*"
reqwest = { version = "*", default-features = false, features = ["blocking", "rustls-tls"] }
zip = "*"
tar = "*"
xz2 = "*"
