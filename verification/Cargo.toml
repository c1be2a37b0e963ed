[package]
name = "wlroots"
version = "0.1.0"
edition = "2021"
publish = false

[dependencies]
anyhow = "1"
clap = { version = "4", features = ["derive"] }
lazy_static = "1"
libc = "0.2"
regex = "1"
thiserror = "1"
tree-sitter = "0.20"
tree-sitter-c = "0.20"
wayland-server = "0.30"
wayland-sys = { version = "0.30", features = ["server"] }
