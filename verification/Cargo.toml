[package]
name = "todo_service"
version = "0.1.0"
edition = "2021"
publish = false

[dependencies]
actix-web = "4"
dotenv = "0.15"
futures = "0.3"
mongodb = "3"
serde = { version = "1", features = ["derive"] }
utoipa = "*"
utoipa-swagger-ui = { version = "*", features = ["actix-web", "vendored"] }
