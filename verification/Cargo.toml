[package]
name = "jami"
version = "0.1.0"
edition = "2021"
publish = false

[dependencies]
dbus = "=0.8.4"
dbus-tokio = "=0.5.2"
libdbus-sys = { version = "=0.2.7", features = ["vendored"] }
log = "=0.4.34"
tokio = { version = "=0.2.25", features = ["rt-core", "sync"] }
