[package]
name = "users_table"
version = "0.1.0"
edition = "2021"
publish = false

[dependencies]
tiberius = "0.12"
tokio = { version = "1", features = ["macros", "rt-multi-thread", "net"] }
tokio-util = { version = "0.7", features = ["compat"] }
futures = "0.3"
