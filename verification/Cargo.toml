[package]
name = "burnt_sushi"
version = "0.1.0"
edition = "2021"
publish = false

[dependencies]
async-thread = "*"
clap = { version = "3", features = ["derive"] }
ctrlc = "3"
dll-syringe = "*"
log = "0.4"
serde = { version = "1", features = ["derive"] }
tokio = { version = "1", features = ["fs", "macros", "rt", "sync"] }
toml = "0.5"
