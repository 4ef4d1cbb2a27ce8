[package]
name = "task_manager"
version = "0.1.0"
edition = "2021"
publish = false

[dependencies]
epoll = "4"

[dev-dependencies]
nix = "0.26"
