[package]
name = "lilith_launcher"
version = "0.1.0"
edition = "2021"
publish = false

[dependencies]
console = "*"
homedir = "*"
indicatif = "*"
reqwest = { version = "0.12", features = ["json"] }
serde = { version = "1", features = ["derive"] }
tokio = { version = "1", features = ["macros", "rt-multi-thread", "time"] }
