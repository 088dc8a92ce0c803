[package]
name = "officer"
version = "0.1.0"
edition = "2021"
publish = false

[dependencies]
jsonwebtoken = "9"
oauth2 = { version = "4", default-features = false, features = ["reqwest", "rustls-tls"] }
serde_json = "1"
serde = { version = "1", features = ["derive"] }
actix-web = "4"
actix-session = { version = "*", features = ["cookie-session"] }
paperclip = { version = "*", features = ["actix4", "v3"] }
kube = { version = "0.87", default-features = false, features = ["client", "rustls-tls"] }
k8s-openapi = { version = "0.20", features = ["v1_28"] }
chrono = "0.4"
dotenv = "0.15"
env_logger = "*"
futures = "0.3"
log = "0.4"
url = "2"
