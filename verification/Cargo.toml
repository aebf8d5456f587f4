[package]
name = "jhapi"
version = "0.1.0"
edition = "2021"
publish = false

[dependencies]
bcrypt = "=0.15.1"
chrono = "=0.4.45"
dotenv = "=0.15.0"
genpdf = { version = "=0.2.0", features = ["images"] }
jsonwebtoken = "=9.3.1"
ldap3 = { version = "=0.11.5", default-features = false, features = ["tls-rustls"] }
magick_rust = "=1.1.0"
oracle = "=0.6.3"
reqwest = { version = "=0.12.28", default-features = false, features = ["rustls-tls"] }
rocket = { version = "=0.5.2", features = ["json"] }
serde = { version = "=1.0.229", features = ["derive"] }
serde_json = { version = "=1.0.154", features = ["raw_value"] }
ssh2 = "=0.9.6"
tokio = { version = "=1.54.1", features = ["full"] }
