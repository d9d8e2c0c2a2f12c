[package]
name = "flex_stickerpack"
version = "0.1.0"
edition = "2021"
rust-version = "1.95"
publish = false

[dependencies]
bitranslit = "=0.2.0"
image = { version = "=0.25.10", default-features = false, features = ["png", "jpeg", "webp"] }
teloxide = { version = "=0.17.0", features = ["macros"] }
tokio = { version = "1", features = ["macros", "rt-multi-thread"] }
futures = "0.3"
dotenv = "0.15"
log = "0.4"
pretty_env_logger = "0.5"
rusqlite = { version = "=0.40.2", features = ["bundled"] }
# Not used directly: teloxide-core needs takecell ^0.1, and its newest patch
# demands a newer rustc than this crate's minimum, so the version is held here.
takecell = "=0.1.1"
