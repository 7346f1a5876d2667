[package]
name = "object_print"
version = "0.1.0"
edition = "2021"
publish = false

[dependencies]
clap = { version = "*", features = ["derive"] }
confy = "*"
console = "*"
dirs = "*"
flate2 = "*"
futures = "*"
infer = "*"
reqwest = { version = "=0.12.28", default-features = false, features = ["rustls-tls"] }
roblox-api = "*"
serde = { version = "*", features = ["derive"] }
tokio = { version = "*", features = ["macros", "rt-multi-thread"] }
url = "*"
xdg-utils = "*"
