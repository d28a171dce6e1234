[package]
name = "rust_shiori"
version = "0.1.0"
edition = "2021"
publish = false

[dependencies]
config = { version = "*", default-features = false, features = ["toml"] }
log = { version = "=0.4.34", features = ["serde"] }
rlua = "=0.17.1"
rmpv = "=1.3.1"
serde = { version = "1", features = ["derive"] }
shiori_hglobal = "*"
simplelog = "*"
winapi = { version = "0.3", features = ["minwindef", "winbase"] }

[dev-dependencies]
regex = "=1.13.1"
