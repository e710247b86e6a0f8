[package]
name = "douluo_game"
version = "0.1.3"
edition = "2021"
publish = false

[dependencies]
abi_stable = "0.11"
abi-stable-host-api = "*"
axum = "0.8"
base64 = "0.22"
getrandom = "0.3"
httpdate = "1"
image = { version = "0.25", default-features = false, features = ["bmp", "jpeg", "png", "webp"] }
qimen-dynamic-plugin-derive = "*"
rusqlite = { version = "0.37", features = ["bundled"] }
rust-embed = "8"
serde = { version = "1", features = ["derive"] }
serde_json = "1"
sha2 = "0.10"
tokio = { version = "1", features = ["fs", "io-util", "macros", "net", "rt-multi-thread", "signal", "sync"] }
toml = "0.8"

[dev-dependencies]
tempfile = "3"
