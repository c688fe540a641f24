[package]
name = "tor1"
version = "0.1.0"
edition = "2021"
publish = false

[dependencies]
aes = "*"
cipher = "*"
ctr = "*"
digest = "*"
sha1 = "*"
sha3 = "*"
subtle = "*"
typenum = "*"
serde = { version = "*", features = ["derive"] }
thiserror = "*"

[dev-dependencies]
hex = "*"
