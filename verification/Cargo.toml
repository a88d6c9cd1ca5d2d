[package]
name = "shekozwallet"
version = "0.1.0"
edition = "2021"
publish = false

[dependencies]
coins-bip32 = "*"
ethers = { version = "*", default-features = false }
ur = "*"
ur-registry = "*"
serde = { version = "*", features = ["derive"] }
serde_json = "*"
console = "*"
qrcode = "*"
reqwest = { version = "*", default-features = false }
tokio = { version = "*", features = ["macros", "rt-multi-thread"] }

[dev-dependencies]
hex = "*"
