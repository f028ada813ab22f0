[package]
name = "rustables"
version = "0.8.0"
edition = "2021"
publish = false

[dependencies]
anyhow = "1"
libc = "0.2"
netlink-sys = { version = "0.8", features = ["tokio_socket"] }
nix = "0.26"
thiserror = "1"
