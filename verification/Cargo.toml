[package]
name = "stone_paper_scissors"
version = "0.1.0"
edition = "2021"
publish = false

[dependencies]
linera-base = "0.15"
async-graphql = { version = "7", default-features = false }
serde = { version = "1", features = ["derive"] }
