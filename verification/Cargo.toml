[package]
name = "git_hooks"
version = "0.1.0"
edition = "2021"
publish = false

[dependencies]
git2 = { version = "*", default-features = false }
shellexpand = "*"
tempfile = "*"
duct = "*"
is_executable = "*"
nix = { version = "*", features = ["fs"] }
log = "*"
env_logger = "*"
