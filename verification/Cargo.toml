[package]
name = "repo_prompt"
version = "0.1.0"
edition = "2021"
publish = false

[dependencies]
git2 = { version = "*", default-features = false }
hex = "0.4"

[dev-dependencies]
tempfile = "3"
