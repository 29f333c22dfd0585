[package]
name = "terminal_bridge"
version = "0.1.0"
edition = "2021"
publish = false

[dependencies]
encoding_rs = "0.8"
dunce = "1"
dirs = "6"
portable-pty = "0.8"
serde = { version = "1", features = ["derive"] }
serde_json = "1"
walkdir = "2"
base64 = "0.22"
open = "5"
tokio = { version = "1", features = ["fs", "sync", "rt", "rt-multi-thread"] }
futures = "0.3"
ws = "0.9"
winapi = { version = "0.3", features = ["consoleapi", "processthreadsapi", "handleapi", "winbase", "minwinbase", "namedpipeapi", "wincon", "wincontypes", "fileapi", "winerror", "wingdi", "winuser", "minwindef", "ntdef"] }
