[package]
name = "dragsim"
version = "0.1.0"
edition = "2021"
publish = false

[dependencies]
dioxus = { version = "0.5", features = ["web"] }
dioxus-logger = "0.5"
gloo-timers = { version = "0.3", features = ["futures"] }
rapier2d = "0.22"
tracing = "0.1"
