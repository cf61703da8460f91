[package]
name = "mcrebuild"
version = "0.1.0"
edition = "2021"
publish = false

[dependencies]
serde = { version = "1", features = ["derive"] }
serde_json = "1"
thiserror = "1"
ureq = "2"
urlencoding = "2"
uuid = { version = "1", features = ["v4", "serde"] }
winit = { version = "0.30", default-features = false, features = ["rwh_06"] }
wry = { version = "*", default-features = false }
