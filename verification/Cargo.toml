[package]
name = "git_wrapper"
version = "0.1.0"
edition = "2021"
publish = false

[dependencies]
posix-errors = "*"
thiserror = "1"
