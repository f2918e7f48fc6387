[package]
name = "dinoclone"
version = "0.1.0"
edition = "2021"
publish = false

[dependencies]
rand = "=0.10.3"
chrono = "=0.4.45"
ncurses = "=5.88.0"
