[package]
name = "unix"
version = "0.1.0"
edition = "2021"
publish = false

[dependencies]
fallible = "=0.1.3"
idem = "=0.1.1"
libc-interface = "=0.1.2"
rand = { version = "=0.6.5", default-features = false }
tempus = { version = "=0.2.4", features = ["libc"] }
void = { version = "=1.0.2", default-features = false }
