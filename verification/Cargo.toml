[package]
name = "rinha_backend"
version = "0.1.0"
edition = "2021"
publish = false

[dependencies]
actix-web = "*"
bb8 = "*"
chrono = "*"
diesel = { version = "*", features = ["postgres_backend"] }
diesel-async = { version = "*", features = ["postgres", "bb8"] }
serde = { version = "*", features = ["derive"] }
