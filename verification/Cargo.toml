[package]
name = "tools_interface"
version = "0.1.0"
edition = "2021"
publish = false

[dependencies]
async-trait = "0.1"
chrono = "0.4"
clap = "4"
csv = "1"
futures = "0.3"
mediawiki = "*"
regex = "1"
reqwest = { version = "*", features = ["blocking", "json"] }
serde = { version = "1", features = ["derive"] }
serde_json = "1"
tokio = { version = "1", features = ["full"] }
