[package]
name = "skybox"
version = "0.1.0"
edition = "2021"
publish = false

[dependencies]
rand = "*"
actix-web = { version = "*", default-features = false, features = ["macros"] }
actix-files = "*"
tokio = { version = "*", default-features = false, features = ["fs", "io-util", "rt-multi-thread", "macros"] }
serde = { version = "*", features = ["derive"] }
sea-orm = { version = "*", default-features = false, features = ["macros"] }
