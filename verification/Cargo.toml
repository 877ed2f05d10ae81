[package]
name = "sage"
version = "0.1.0"
edition = "2021"
publish = false

[dependencies]
libc = "0.2"
log = { version = "0.4", features = ["std"] }
chrono = "0.4"
crossbeam-channel = "0.5"
mio = { version = "1", features = ["os-poll", "net"] }
signal-hook = "0.3"
tracing = "0.1"
tracing-subscriber = "0.3"
