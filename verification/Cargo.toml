[package]
name = "api_service"
version = "0.1.0"
edition = "2021"
publish = false

[dependencies]
jwt = "=0.16.0"
hmac = "=0.12.1"
sha2 = "=0.10.9"
rust-argon2 = "=1.0.1"
serde = { version = "1", features = ["derive"] }
serde_derive = "1"
serde_json = { version = "=1.0.154", features = ["arbitrary_precision"] }
rocket = { version = "0.5", features = ["json"] }
rocket_cors = "0.6"
diesel = { version = "=1.4.8", features = ["postgres"] }
diesel-enum = "=0.1.0"
r2d2 = "=0.8.10"
r2d2-diesel = "=1.0.0"
dotenv = "=0.15.0"
