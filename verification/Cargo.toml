[package]
name = "shield"
version = "0.1.0"
edition = "2021"
publish = false

[dependencies]
openidconnect = { version = "=3.5.0", default-features = false, features = ["reqwest"] }
serde_json = "=1.0.154"
async-trait = "=0.1.92"
axum = "=0.7.9"
sea-orm = { version = "=0.12.15", default-features = false, features = ["macros"] }
serde = { version = "1", features = ["derive"] }
