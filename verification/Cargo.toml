[package]
name = "ghpc"
version = "26.4.12"
edition = "2021"
publish = false

[dependencies]
base64 = "0.22"
chrono = "0.4"
clap = { version = "4", features = ["derive", "env"] }
dirs = "6"
rpassword = "7"
rsa = { version = "0.9", features = ["getrandom"] }
serde = { version = "1", features = ["derive"] }
serde_json = "1"
ureq = { version = "2", features = ["json"] }
urlencoding = "2"
