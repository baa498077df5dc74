[package]
name = "load_test"
version = "0.1.0"
edition = "2021"
publish = false

[dependencies]
actix-web = { version = "*", default-features = false, features = ["macros"] }
env_logger = "*"
log = "*"
