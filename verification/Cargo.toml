[package]
name = "shopify"
version = "0.1.0"
edition = "2021"
publish = false

[dependencies]
serde = { version = "1", features = ["derive"] }
serde_json = "1"
url = "2"
reqwest = { version = "0.12", default-features = false, features = ["blocking", "json"] }
chrono = "0.4"
clap = { version = "4", features = ["derive"] }
dotenv = "0.15"
thiserror = "1"
parse_link_header = "0.3"
