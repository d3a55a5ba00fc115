[package]
name = "srpk"
version = "0.1.0"
edition = "2021"
publish = false

[dependencies]
aes-gcm-siv = "*"
bcrypt = "*"
sha2 = "*"
sqlite = "*"
dirs = "*"
rpassword = "*"
arboard = { version = "*", default-features = false }
