[package]
name = "prepare_commit_msg"
version = "0.1.0"
edition = "2021"
publish = false

[dependencies]
regex = "1"
git2 = { version = "*", default-features = false }
