[package]
name = "gluesql"
version = "0.1.0"
edition = "2021"
publish = false

[dependencies]
nom-sql = "*"
serde = { version = "1", features = ["derive"] }
thiserror = "1"
