[package]
name = "journal_keychain"
version = "0.1.0"
edition = "2021"
publish = false

[dependencies]
keyring = { version = "3", features = ["apple-native", "windows-native"] }
uuid = { version = "1", features = ["v4"] }
dirs = "5"
once_cell = "1"
log = "0.4"
env_logger = "0.11"
serde = { version = "1", features = ["derive"] }
chrono = "0.4"
rusqlite = { version = "0.31", features = ["bundled"] }

[dev-dependencies]
tempfile = "3"
