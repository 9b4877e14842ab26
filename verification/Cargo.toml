[package]
name = "slot_machine"
version = "0.1.0"
edition = "2021"
publish = false

[dependencies]
rand = "0.9"
dotenv = "0.15"
once_cell = "1"
poise = "0.6"
serenity = "0.12"
reqwest = { version = "0.12", features = ["json"] }
serde = { version = "1", features = ["derive"] }
tokio = { version = "1", features = ["macros", "rt-multi-thread"] }
