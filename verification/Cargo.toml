[package]
name = "rpg_game"
version = "0.1.0"
edition = "2021"
publish = false

[dependencies]
async-graphql = { version = "*", default-features = false }
serde = { version = "1", features = ["derive"] }
serde_json = "1"
