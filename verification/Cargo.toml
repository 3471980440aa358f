[package]
name = "rustvision"
version = "0.1.0"
edition = "2021"
publish = false

[dependencies]
eframe = { version = "0.27", default-features = false, features = ["default_fonts", "glow"] }
image = { version = "0.24", default-features = false, features = ["ico"] }
winapi = { version = "0.3", features = ["handleapi", "minwindef", "processthreadsapi", "psapi", "windef", "wingdi", "winnt", "winuser"] }
