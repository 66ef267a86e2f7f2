[package]
name = "output_vt100"
version = "0.1.3"
edition = "2021"
publish = false

[dependencies]
winapi = { version = "0.3", features = ["consoleapi", "fileapi", "handleapi", "minwindef", "wincon", "winnt"] }
