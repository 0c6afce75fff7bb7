[package]
name = "panik"
version = "0.1.0"
edition = "2021"
publish = false

[dependencies]
backtrace = "*"
lazy_static = "*"
log = "*"
parking_lot = "*"
slog = "*"
slog-stdlog = "*"
