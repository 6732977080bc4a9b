[package]
name = "mvp"
version = "0.1.0"
edition = "2021"
publish = false

[dependencies]
rusqlite = { version = "*", features = ["bundled"] }
rusqlite_migration = "1"
tokio = { version = "1", features = ["rt-multi-thread", "sync", "macros"] }
crossbeam-channel = "0.5"
cursive = { version = "*", default-features = false, features = ["crossterm-backend"] }
cursive_core = "*"
retain_mut = "0.1"
log = "0.4"
pretty_env_logger = "*"
