[package]
name = "lth"
version = "0.1.0"
edition = "2021"
publish = false

[dependencies]
reqwest = { version = "*", default-features = false, features = ["blocking"] }
git2 = { version = "*", default-features = false }
