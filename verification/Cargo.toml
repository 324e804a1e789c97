[package]
name = "question_flow"
version = "0.1.0"
edition = "2021"
publish = false

[dependencies]
tokio = { version = "*", features = ["rt-multi-thread", "macros", "time"] }
reqwest = { version = "*", default-features = false, features = ["json", "rustls-tls"] }
serde = { version = "*", features = ["derive"] }
serde_json = "*"
dotenv = "*"
rusoto_core = { version = "*", default-features = false, features = ["rustls"] }
rusoto_s3 = { version = "*", default-features = false, features = ["rustls"] }
