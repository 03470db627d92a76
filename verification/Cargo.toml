[package]
name = "syscalls"
version = "0.1.0"
edition = "2021"
publish = false

[dependencies]
errno = "0.3"
serde = { version = "1", features = ["derive"] }

[dev-dependencies]
libc = "0.2"
