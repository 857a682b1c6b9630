[package]
name = "fall_detector"
version = "0.1.0"
edition = "2021"
publish = false

[dependencies]
chrono = "0.4"
serde = { version = "1", features = ["derive"] }
serde_json = "1"
tokio = { version = "1", features = ["sync", "macros", "rt"] }
actix-web = { version = "4", default-features = false, features = ["macros"] }
actix-ws = "0.3"
actix-rt = "2"
actix-cors = "0.7"
futures-util = "0.3"
sqlx = { version = "0.8", default-features = false, features = ["postgres", "runtime-tokio", "chrono"] }
rand = "0.8"
dotenv = "0.15"
