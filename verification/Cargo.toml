[package]
name = "rehack"
version = "0.1.0"
edition = "2021"
publish = false

[dependencies]
termion = "=1.5.5"
thread-scoped = "=1.0.2"
time = "=0.1.45"
