[package]
name = "authctx"
version = "0.1.0"
edition = "2021"
publish = false

[dependencies]
http = "*"
serde = { version = "*", features = ["derive"] }
async-graphql = "*"
async-trait = "*"
axum = "*"
axum-core = "*"
