[package]
name = "edge_webview"
version = "0.1.0"
edition = "2021"
publish = false

[dependencies]
include_dir = "=0.7.4"
lazy_static = "=1.5.1"
winapi = { version = "=0.3.9", features = ["libloaderapi", "minwindef", "roapi", "windef", "winerror", "winnt", "winuser"] }
winit = "=0.20.0"
winrt = { version = "=0.6.0", features = ["windows-web"] }
