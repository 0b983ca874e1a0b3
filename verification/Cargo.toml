[package]
name = "dice_bot"
version = "0.1.0"
edition = "2021"
publish = false

[dependencies]
rand = "=0.8.8"
teloxide = { version = "=0.12.2", features = ["macros"] }
dptree = "=0.3.0"
tokio = { version = "=1.54.1", features = ["full"] }
axum = "=0.7.9"
log = "=0.4.34"
env_logger = "=0.10.2"
dotenvy = "=0.15.7"
serde = { version = "=1.0.229", features = ["derive"] }
# Not called from this crate: teloxide-core brings takecell in, and it is held
# at 0.1.1 because 0.1.2 asks for a newer compiler than the other crates do.
takecell = "=0.1.1"
