[package]
name = "debugger"
version = "0.1.0"
edition = "2021"
publish = false

[dependencies]
libc = "0.2"
iced-x86 = { version = "1", default-features = false, features = ["std", "decoder", "nasm"] }
termion = "1.5"
tui = { version = "0.9", default-features = false, features = ["termion"] }
unicode-width = "0.1"
log = "0.4"
env_logger = "0.7"
human-panic = "1.0"
