[package]
name = "cybertech_server"
version = "0.1.0"
edition = "2021"
publish = false

[dependencies]
actix-cors = "0.7"
actix-web = { version = "4", default-features = false, features = ["macros"] }
bcrypt = "0.15"
bson = "2"
chrono = "0.4"
dotenv = "0.15"
futures-util = "0.3"
jsonwebtoken = "9"
mail-builder = "0.3"
mail-send = "0.4"
mongodb = "3"
passwords = "3"
rand = "0.8"
serde = { version = "1", features = ["derive"] }
serde_json = { version = "1", features = ["preserve_order"] }

[dev-dependencies]
regex = "1"
