[package]
name = "task_dialogue"
version = "0.1.0"
edition = "2021"
publish = false
rust-version = "1.95"

[dependencies]
dptree = "=0.3.0"
log = "=0.4.34"
pretty_env_logger = "=0.5.0"
rusqlite = { version = "=0.40.2", features = ["bundled"] }
# Not used directly. teloxide-core asks for takecell 0.1, and 0.1.2 needs
# Rust 1.96; this line holds it at the last release that builds with the
# rust-version above.
takecell = "=0.1.1"
teloxide = { version = "=0.12.2", features = ["macros"] }
tokio = { version = "=1.54.1", features = ["rt-multi-thread", "macros"] }
