[package]
name = "luauncher"
version = "0.1.0"
edition = "2021"
publish = false

[dependencies]
base64 = "*"
directories = "=6.0.0"
ico = "*"
image = { version = "*", default-features = false, features = ["png"] }
mlua = { version = "=0.12.2", features = ["lua54", "vendored", "async"] }
rfd = { version = "=0.17.2", default-features = false, features = ["xdg-portal"] }
serde = { version = "=1.0.229", features = ["derive"] }
serde_json = "=1.0.154"
tokio = { version = "=1.54.1", features = ["macros", "rt-multi-thread", "time"] }
winapi = { version = "=0.3.9", features = ["winuser"] }
windows-icons = "*"
