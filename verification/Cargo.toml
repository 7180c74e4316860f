[package]
name = "steamscrape"
version = "0.1.0"
edition = "2021"
publish = false

[dependencies]
reqwest = { version = "=0.13.5", default-features = false, features = ["blocking", "json", "query", "native-tls"] }
url = "=2.5.8"
scraper = "=0.27.0"
serde_json = "=1.0.151"
clap = "=4.6.7"
dotenv = "=0.15.0"
log = "=0.4.34"
pretty_env_logger = "=0.5.0"
