[package]
name = "imap_pool"
version = "0.1.0"
edition = "2021"
publish = false

[dependencies]
anyhow = "*"
async-imap = { version = "=0.12.0", default-features = false, features = ["runtime-tokio"] }
async-native-tls = { version = "=0.6.0", default-features = false, features = ["runtime-tokio"] }
deadpool = "=0.13.1"
env_logger = "*"
envy = "=0.4.2"
futures = "*"
lettre = { version = "=0.11.23", features = ["tokio1", "tokio1-native-tls"] }
log = "*"
serde = { version = "*", features = ["derive"] }
thiserror = "*"
tokio = { version = "*", features = ["macros", "rt-multi-thread", "net"] }
warp = { version = "=0.4.3", features = ["server"] }
