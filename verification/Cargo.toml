[package]
name = "luna"
version = "0.1.0"
edition = "2021"
publish = false

[dependencies]
log = "0.4"
env_logger = "*"
winapi = { version = "0.3", features = ["winuser", "shellapi", "libloaderapi", "errhandlingapi", "wingdi", "windef", "minwindef", "ntdef", "basetsd", "guiddef"] }
