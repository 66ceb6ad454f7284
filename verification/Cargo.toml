[package]
name = "debtswithfriends"
version = "0.1.0"
edition = "2021"
rust-version = "1.95"
publish = false

[dependencies]
chrono = { version = "=0.4.45", features = ["serde"] }
log = "=0.4.34"
pretty_env_logger = "=0.5.0"
serde = { version = "=1.0.229", features = ["derive"] }
serde_json = "=1.0.154"
# Not used directly: teloxide brings takecell in, and from 0.1.2 on takecell
# asks for a newer compiler than the rust-version above.
takecell = "<0.1.2"
teloxide = { version = "=0.17.0", default-features = false, features = ["macros", "rustls", "ctrlc_handler"] }
tokio = { version = "=1.54.1", features = ["rt-multi-thread", "macros"] }
