[package]
name = "cntour"
version = "0.1.0"
edition = "2021"
publish = false

[dependencies]
image = { version = "*", default-features = false, features = ["png"] }
rand = "0.9"
prisma = "*"
noise-functions = "*"
rayon = "*"
serde = { version = "1", features = ["derive"] }
actix-web = { version = "4", default-features = false, features = ["macros"] }
actix-cors = "*"
env_logger = { version = "*", default-features = false }
log = "*"
