[package]
name = "lapce_update"
version = "0.1.0"
edition = "2021"
publish = false

[dependencies]
anyhow = "*"
dmg = "*"
flate2 = "*"
fs_extra = "*"
reqwest = { version = "*", default-features = false, features = ["blocking"] }
serde = { version = "*", features = ["derive"] }
serde_json = "*"
tar = "*"
zip = { version = "*", default-features = false, features = ["deflate"] }
