[package]
name = "key_flow"
version = "0.1.0"
edition = "2021"
publish = false

[dependencies]
circular-buffer = "*"
rand = "*"
winapi = { version = "0.3", features = ["winuser", "processthreadsapi", "windef", "minwindef"] }
windows-sys = { version = "*", features = ["Win32_Foundation", "Win32_Media", "Win32_System_Threading"] }
