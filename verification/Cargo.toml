[package]
name = "command_relay"
version = "0.1.0"
edition = "2021"
publish = false

[dependencies]
carapax = "=0.40.0"
reqwest = { version = "=0.13.5", features = ["form"] }
serde_json = "=1.0.154"
tokio = { version = "=1.54.1", features = ["macros", "rt-multi-thread"] }
