[package]
name = "questarch"
version = "0.1.0"
edition = "2021"
publish = false

[dependencies]
actix-files = "0.6"
actix-web = { version = "4", default-features = false, features = ["macros", "cookies", "compress-gzip"] }
bs58 = "0.5"
env_logger = "0.11"
fred = "10"
lettre = { version = "0.11", default-features = false, features = ["builder", "smtp-transport", "tokio1", "hostname", "pool"] }
log = "0.4"
rand = "0.8"
sqlx = { version = "0.8", default-features = false, features = ["runtime-tokio", "postgres", "uuid"] }
tokio = { version = "1", features = ["rt-multi-thread", "macros"] }
uuid = "1"
