[package]
name = "forge"
version = "0.1.0"
edition = "2021"
publish = false

[dependencies]
clap = "4"
confy = "*"
dialoguer = "*"
mlua = { version = "*", features = ["lua54", "vendored"] }
serde = { version = "1", features = ["derive"] }
serde_yaml = "*"
tokio = { version = "1", features = ["macros", "rt-multi-thread"] }
