[package]
name = "trump"
version = "0.1.0"
edition = "2021"
publish = false

[dependencies]
aes-gcm = "0.10"
base64 = "0.22"
rand = "0.9"
clap = "4"
dirs = "5"
rpassword = "7"
rustyline = "14"
serde = { version = "1", features = ["derive"] }
serde_json = "1"
ssh2 = "0.9"
