[package]
name = "session_auth"
version = "0.1.0"
edition = "2021"
publish = false

[dependencies]
bcrypt = "0.10"
rand = "0.8"
warp = "0.3"
tokio = { version = "1", features = ["macros", "rt-multi-thread"] }
diesel = { version = "1.4", features = ["postgres", "r2d2"] }
dotenv = "0.15"
env_logger = "0.9"
log = "0.4"
serde = { version = "1", features = ["derive"] }
ructe = "0.13"
