[package]
name = "listenfd"
version = "0.1.0"
edition = "2021"
publish = false

[dependencies]
libc = "0.2"
uuid = "1"
winapi = { version = "0.3", features = ["ntdef", "processthreadsapi", "winsock2"] }
