[package]
name = "report_check"
version = "0.1.0"
edition = "2021"
publish = false

[dependencies]
base64 = "0.22"
serde_json = "1"
reqwest = { version = "0.12", default-features = false, features = ["blocking", "cookies"] }
structopt = "0.3"
threadpool = "1"
